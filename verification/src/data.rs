//! The session record: everything about a session that outlives a reload.

use crate::inventory::texts;
use vstd::prelude::*;

verus! {

/// What a session record holds, as plain sequences of characters.
#[verifier::ext_equal]
pub struct SessionView {
    pub gitref: Seq<char>,
    pub filter_content: Seq<char>,
    pub messages: Seq<Seq<char>>,
    pub hosts_all: Seq<Seq<char>>,
    pub hosts_picked: Seq<Seq<char>>,
    pub inventory: Seq<Seq<char>>,
    pub logs: Seq<Seq<char>>,
}

impl SessionView {
    /// The record of a session in which nothing has happened yet.
    pub open spec fn empty() -> SessionView {
        SessionView {
            gitref: Seq::empty(),
            filter_content: Seq::empty(),
            messages: Seq::empty(),
            hosts_all: Seq::empty(),
            hosts_picked: Seq::empty(),
            inventory: Seq::empty(),
            logs: Seq::empty(),
        }
    }

    /// Every picked host is a known host, and the known hosts are the
    /// inventory as it was last loaded.
    pub open spec fn consistent(self) -> bool {
        &&& self.hosts_all == self.inventory
        &&& forall|i: int|
            0 <= i < self.hosts_picked.len() ==> self.hosts_all.contains(
                #[trigger] self.hosts_picked[i],
            )
    }
}

/// The persisted part of a session.
#[derive(Debug, PartialEq, Eq)]
pub struct CenDashData {
    /// Deployment reference entered by the operator.
    pub gitref: String,
    /// Regular expression that selects inventory lines.
    pub filter_content: String,
    /// Chronological log shown to the operator.
    pub messages: Vec<String>,
    /// Every host of the inventory as last loaded.
    pub hosts_all: Vec<String>,
    /// The hosts selected for deployment.
    pub hosts_picked: Vec<String>,
    /// The parsed host list, kept equal to `hosts_all`.
    pub inventory: Vec<String>,
    /// Reserved log buffer.
    pub logs: Vec<String>,
}

impl View for CenDashData {
    type V = SessionView;

    open spec fn view(&self) -> SessionView {
        SessionView {
            gitref: self.gitref@,
            filter_content: self.filter_content@,
            messages: texts(self.messages@),
            hosts_all: texts(self.hosts_all@),
            hosts_picked: texts(self.hosts_picked@),
            inventory: texts(self.inventory@),
            logs: texts(self.logs@),
        }
    }
}

/// Copies a list of strings.
pub fn copy_texts(list: &Vec<String>) -> (result: Vec<String>)
    ensures
        result@ == list@,
{
    let result = list.clone();
    assert(result@ =~= list@);
    result
}

impl Clone for CenDashData {
    fn clone(&self) -> (result: Self)
        ensures
            result@ == self@,
    {
        CenDashData {
            gitref: self.gitref.clone(),
            filter_content: self.filter_content.clone(),
            messages: copy_texts(&self.messages),
            hosts_all: copy_texts(&self.hosts_all),
            hosts_picked: copy_texts(&self.hosts_picked),
            inventory: copy_texts(&self.inventory),
            logs: copy_texts(&self.logs),
        }
    }
}

impl Default for CenDashData {
    fn default() -> (result: Self)
        ensures
            result@ == SessionView::empty(),
    {
        let result = CenDashData {
            gitref: String::new(),
            filter_content: String::new(),
            messages: Vec::new(),
            hosts_all: Vec::new(),
            hosts_picked: Vec::new(),
            inventory: Vec::new(),
            logs: Vec::new(),
        };
        assert(result@ =~~= SessionView::empty());
        result
    }
}

} // verus!
