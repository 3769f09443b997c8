//! What happens to a session, and what a session asks of its surroundings.

use crate::data::{CenDashData, SessionView};
use crate::inventory::texts;
use vstd::prelude::*;

verus! {

/// A change reported by an input element.
#[derive(Debug, PartialEq, Eq)]
pub enum ChangeData {
    /// The values selected in a multi-select list, all of them.
    Select(Vec<String>),
    /// The new value of a text field.
    Value(String),
    /// The names of the files picked in a file input.
    Files(Vec<String>),
}

/// `ChangeData` as plain sequences.
pub enum ChangeView {
    Select(Seq<Seq<char>>),
    Value(Seq<char>),
    Files(Seq<Seq<char>>),
}

impl View for ChangeData {
    type V = ChangeView;

    open spec fn view(&self) -> ChangeView {
        match self {
            ChangeData::Select(hosts) => ChangeView::Select(texts(hosts@)),
            ChangeData::Value(value) => ChangeView::Value(value@),
            ChangeData::Files(names) => ChangeView::Files(texts(names@)),
        }
    }
}

/// What a storage slot held, as plain sequences.
pub open spec fn stored_view(stored: Option<CenDashData>) -> Option<SessionView> {
    match stored {
        Some(data) => Some(data@),
        None => None,
    }
}

/// An event delivered to the session.
#[derive(Debug, PartialEq, Eq)]
pub enum Msg {
    /// The operator asks to stop the running job.
    Abort,
    /// A deployment has come to its end.
    Done,
    /// The deployment timer has fired.
    DeploySteps,
    /// The operator asks to deploy.
    Deploy,
    /// The operator has edited the deployment reference.
    SetGitRef(String),
    /// The operator has changed the host selection.
    SetOrUnsetHost(ChangeData),
    /// The inventory endpoint has answered without an inventory.
    InventoryFetching,
    /// The inventory is to be fetched.
    InventoryLoad,
    /// The inventory endpoint has answered with this text.
    InventoryLoaded(String),
    /// The operator asks to persist the session.
    StoreData,
    /// The operator asks to bring back the persisted session; the payload is
    /// what the storage slot held, `None` if it was empty or unreadable.
    RestoreData(Option<CenDashData>),
    /// The operator has edited the host filter.
    SetContentFilter(String),
}

/// `Msg` as plain sequences.
pub enum MsgView {
    Abort,
    Done,
    DeploySteps,
    Deploy,
    SetGitRef(Seq<char>),
    SetOrUnsetHost(ChangeView),
    InventoryFetching,
    InventoryLoad,
    InventoryLoaded(Seq<char>),
    StoreData,
    RestoreData(Option<SessionView>),
    SetContentFilter(Seq<char>),
}

impl View for Msg {
    type V = MsgView;

    open spec fn view(&self) -> MsgView {
        match self {
            Msg::Abort => MsgView::Abort,
            Msg::Done => MsgView::Done,
            Msg::DeploySteps => MsgView::DeploySteps,
            Msg::Deploy => MsgView::Deploy,
            Msg::SetGitRef(value) => MsgView::SetGitRef(value@),
            Msg::SetOrUnsetHost(change) => MsgView::SetOrUnsetHost(change@),
            Msg::InventoryFetching => MsgView::InventoryFetching,
            Msg::InventoryLoad => MsgView::InventoryLoad,
            Msg::InventoryLoaded(text) => MsgView::InventoryLoaded(text@),
            Msg::StoreData => MsgView::StoreData,
            Msg::RestoreData(stored) => MsgView::RestoreData(stored_view(*stored)),
            Msg::SetContentFilter(value) => MsgView::SetContentFilter(value@),
        }
    }
}

/// The text of an answer of the inventory endpoint; a body that could not be
/// read counts as the empty text.
pub open spec fn body_view(body: Option<String>) -> Seq<char> {
    match body {
        Some(text) => text@,
        None => Seq::empty(),
    }
}

/// The event that an answer of the inventory endpoint stands for: the
/// inventory text where the endpoint reported success, and word that none
/// was found where it did not.
pub open spec fn answer_event(success: bool, body: Seq<char>) -> MsgView {
    if success {
        MsgView::InventoryLoaded(body)
    } else {
        MsgView::InventoryFetching
    }
}

/// Turns an answer of the inventory endpoint into the event it stands for.
pub fn fetch_answer(success: bool, body: Option<String>) -> (result: Msg)
    ensures
        result@ == answer_event(success, body_view(body)),
{
    if success {
        match body {
            Some(text) => Msg::InventoryLoaded(text),
            None => Msg::InventoryLoaded(String::new()),
        }
    } else {
        Msg::InventoryFetching
    }
}

/// How loudly a console line is written.
#[derive(Clone, Copy, Debug, PartialEq, Eq, Structural)]
pub enum Level {
    Log,
    Info,
    Warn,
}

/// Something the session asks its surroundings to do. A list of effects is
/// performed in order.
#[derive(Debug, PartialEq, Eq)]
pub enum Effect {
    /// Cancel the task in the job slot and empty the slot.
    CancelJob,
    /// Request the inventory and keep the request in the job slot. Its
    /// answer comes back as `InventoryLoaded` or `InventoryFetching`.
    FetchInventory,
    /// Start a timer that delivers `DeploySteps` every `period_ms`
    /// milliseconds and keep it in the job slot.
    StartDeployTicks { period_ms: u64 },
    /// Cancel the inventory reload timer and empty its slot.
    CancelAutoload,
    /// Start a timer that delivers `InventoryLoad` every `period_ms`
    /// milliseconds and keep it in the reload slot.
    ScheduleAutoload { period_ms: u64 },
    /// Write this record to the storage slot.
    Store(CenDashData),
    /// Write a line to the console.
    Console(Level, String),
    /// Clear the console.
    ConsoleClear,
    /// Count one more occurrence of this label on the console.
    ConsoleCount(String),
}

/// `Effect` as plain sequences.
pub enum EffectView {
    CancelJob,
    FetchInventory,
    StartDeployTicks { period_ms: u64 },
    CancelAutoload,
    ScheduleAutoload { period_ms: u64 },
    Store(SessionView),
    Console(Level, Seq<char>),
    ConsoleClear,
    ConsoleCount(Seq<char>),
}

impl View for Effect {
    type V = EffectView;

    open spec fn view(&self) -> EffectView {
        match self {
            Effect::CancelJob => EffectView::CancelJob,
            Effect::FetchInventory => EffectView::FetchInventory,
            Effect::StartDeployTicks { period_ms } => EffectView::StartDeployTicks {
                period_ms: *period_ms,
            },
            Effect::CancelAutoload => EffectView::CancelAutoload,
            Effect::ScheduleAutoload { period_ms } => EffectView::ScheduleAutoload {
                period_ms: *period_ms,
            },
            Effect::Store(data) => EffectView::Store(data@),
            Effect::Console(level, text) => EffectView::Console(*level, text@),
            Effect::ConsoleClear => EffectView::ConsoleClear,
            Effect::ConsoleCount(label) => EffectView::ConsoleCount(label@),
        }
    }
}

/// What a list of effects asks for, as plain sequences.
pub open spec fn effect_views(effects: Seq<Effect>) -> Seq<EffectView> {
    effects.map_values(|e: Effect| e@)
}

/// Adds one effect to the end of a list.
pub fn emit(effects: &mut Vec<Effect>, effect: Effect)
    ensures
        effect_views(final(effects)@) == effect_views(old(effects)@).push(effect@),
{
    effects.push(effect);
    assert(effect_views(effects@) =~= effect_views(old(effects)@).push(effect@));
}

/// Adds one text to the end of a list.
pub fn append_text(list: &mut Vec<String>, text: String)
    ensures
        texts(final(list)@) == texts(old(list)@).push(text@),
{
    list.push(text);
    assert(texts(list@) =~= texts(old(list)@).push(text@));
}

} // verus!
