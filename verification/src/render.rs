//! What the rendering layer gets to see of a session.

use crate::data::copy_texts;
use crate::inventory::texts;
use crate::model::{Model, ModelState};
use vstd::prelude::*;

verus! {

/// A read-only picture of a session, taken after an event.
#[derive(Debug, PartialEq, Eq)]
pub struct Snapshot {
    /// The deployment reference.
    pub gitref: String,
    /// The host filter.
    pub filter_content: String,
    /// The message log.
    pub messages: Vec<String>,
    /// Every known host, in inventory order.
    pub hosts_all: Vec<String>,
    /// The picked hosts.
    pub hosts_picked: Vec<String>,
    /// For each known host, whether it is among the picked ones.
    pub selected: Vec<bool>,
    /// Whether the job slot is occupied.
    pub has_active_job: bool,
    /// The deploy control is out of use while a job is active.
    pub deploy_disabled: bool,
    /// The reload control is out of use while a job is active.
    pub reload_disabled: bool,
    /// The abort control is out of use while no job is active.
    pub abort_disabled: bool,
}

/// `Snapshot` as plain values.
#[verifier::ext_equal]
pub struct SnapshotView {
    pub gitref: Seq<char>,
    pub filter_content: Seq<char>,
    pub messages: Seq<Seq<char>>,
    pub hosts_all: Seq<Seq<char>>,
    pub hosts_picked: Seq<Seq<char>>,
    pub selected: Seq<bool>,
    pub has_active_job: bool,
    pub deploy_disabled: bool,
    pub reload_disabled: bool,
    pub abort_disabled: bool,
}

impl View for Snapshot {
    type V = SnapshotView;

    open spec fn view(&self) -> SnapshotView {
        SnapshotView {
            gitref: self.gitref@,
            filter_content: self.filter_content@,
            messages: texts(self.messages@),
            hosts_all: texts(self.hosts_all@),
            hosts_picked: texts(self.hosts_picked@),
            selected: self.selected@,
            has_active_job: self.has_active_job,
            deploy_disabled: self.deploy_disabled,
            reload_disabled: self.reload_disabled,
            abort_disabled: self.abort_disabled,
        }
    }
}

/// The picture of a state.
pub open spec fn snapshot_of(s: ModelState) -> SnapshotView {
    SnapshotView {
        gitref: s.data.gitref,
        filter_content: s.data.filter_content,
        messages: s.data.messages,
        hosts_all: s.data.hosts_all,
        hosts_picked: s.data.hosts_picked,
        selected: Seq::new(
            s.data.hosts_all.len(),
            |i: int| s.data.hosts_picked.contains(s.data.hosts_all[i]),
        ),
        has_active_job: s.job is Some,
        deploy_disabled: s.job is Some,
        reload_disabled: s.job is Some,
        abort_disabled: s.job is None,
    }
}

/// Tells whether a text occurs in a list.
pub fn contains_text(list: &Vec<String>, item: &String) -> (result: bool)
    ensures
        result == texts(list@).contains(item@),
{
    let mut i: usize = 0;
    while i < list.len()
        invariant
            i <= list.len(),
            forall|j: int| 0 <= j < i ==> texts(list@)[j] != item@,
        decreases list.len() - i,
    {
        if list[i] == *item {
            assert(texts(list@)[i as int] == item@);
            return true;
        }
        i = i + 1;
    }
    false
}

impl Model {
    /// Takes the picture that the rendering layer draws.
    pub fn view(&self) -> (result: Snapshot)
        ensures
            result@ == snapshot_of(self.state()),
    {
        let mut selected: Vec<bool> = Vec::new();
        let mut i: usize = 0;
        while i < self.data.hosts_all.len()
            invariant
                i <= self.data.hosts_all.len(),
                selected@.len() == i,
                forall|j: int|
                    0 <= j < i ==> selected@[j] == texts(self.data.hosts_picked@).contains(
                        #[trigger] texts(self.data.hosts_all@)[j],
                    ),
            decreases self.data.hosts_all.len() - i,
        {
            let picked = contains_text(&self.data.hosts_picked, &self.data.hosts_all[i]);
            selected.push(picked);
            i = i + 1;
        }
        let has_active_job = self.job.is_some();
        let result = Snapshot {
            gitref: self.data.gitref.clone(),
            filter_content: self.data.filter_content.clone(),
            messages: copy_texts(&self.data.messages),
            hosts_all: copy_texts(&self.data.hosts_all),
            hosts_picked: copy_texts(&self.data.hosts_picked),
            selected,
            has_active_job,
            deploy_disabled: has_active_job,
            reload_disabled: has_active_job,
            abort_disabled: !has_active_job,
        };
        assert(result@.selected =~= snapshot_of(self.state()).selected);
        assert(result@ =~= snapshot_of(self.state()));
        result
    }
}

} // verus!
