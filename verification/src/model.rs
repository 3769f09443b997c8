//! The session state machine.

use crate::data::{copy_texts, CenDashData, SessionView};
use crate::event::{
    append_text, effect_views, emit, stored_view, ChangeData, ChangeView, Effect, EffectView,
    Level, Msg, MsgView,
};
use crate::filter::filter_usable;
use crate::inventory::{inventory_hosts, parse_inventory, texts, InventoryError};
use crate::text::{decimal, join, list_texts, listed, to_decimal};
use vstd::prelude::*;
use vstd::string::StringExecFns;
use vstd::utf8::encode_utf8;

verus! {

/// Path of the inventory endpoint.
pub const INVENTORY_FILE: &'static str = "/inventory";

/// Key of the storage slot that holds the persisted session.
pub const DATASTORE_BROWSER_ID: &'static str = "cendash-data-store";

/// Milliseconds between two ticks of a running deployment.
pub const DEPLOY_TICK_MS: u64 = 300;

/// Milliseconds between two reloads of the inventory after an edit.
pub const AUTOLOAD_MS: u64 = 500;

/// Milliseconds between two tries of the first inventory load.
pub const STARTUP_MS: u64 = 0;

/// What occupies the job slot.
#[derive(Clone, Copy, Debug, PartialEq, Eq, Structural)]
pub enum Job {
    /// An inventory request is under way or has ended without an inventory.
    Loading,
    /// A deployment is ticking.
    Deploying,
}

/// The state of a session as plain values.
#[verifier::ext_equal]
pub struct ModelState {
    pub data: SessionView,
    pub job: Option<Job>,
    pub job_onload: Option<u64>,
}

/// A state together with what is asked of the surroundings.
#[verifier::ext_equal]
pub struct Outcome {
    pub state: ModelState,
    pub effects: Seq<EffectView>,
}

/// A deployment reference is accepted when it is longer than three bytes of
/// UTF-8.
pub open spec fn gitref_accepted(gitref: Seq<char>) -> bool {
    encode_utf8(gitref).len() > 3
}

/// The effect that empties an occupied job slot.
pub open spec fn cancel_job(job: Option<Job>) -> Seq<EffectView> {
    if job is Some {
        seq![EffectView::CancelJob]
    } else {
        Seq::empty()
    }
}

/// The effect that empties an occupied reload slot.
pub open spec fn cancel_autoload(job_onload: Option<u64>) -> Seq<EffectView> {
    if job_onload is Some {
        seq![EffectView::CancelAutoload]
    } else {
        Seq::empty()
    }
}

/// The effects of persisting a record.
pub open spec fn store_effects(data: SessionView) -> Seq<EffectView> {
    seq![EffectView::Store(data), EffectView::Console(Level::Log, "Stored state data"@)]
}

/// The effects of replacing the reload timer.
pub open spec fn autoload_effects(job_onload: Option<u64>) -> Seq<EffectView> {
    cancel_autoload(job_onload).push(EffectView::ScheduleAutoload { period_ms: AUTOLOAD_MS })
}

/// A fetch of the inventory begins, in place of whatever job there was.
pub open spec fn on_inventory_load(s: ModelState) -> Outcome {
    Outcome {
        state: ModelState { job: Some(Job::Loading), ..s },
        effects: cancel_job(s.job).push(EffectView::FetchInventory),
    }
}

/// The endpoint had no inventory: a console line and nothing else.
pub open spec fn on_inventory_fetching(s: ModelState) -> Outcome {
    Outcome {
        state: s,
        effects: seq![EffectView::Console(Level::Log, "Seeking /static/inventory\u{2026}"@)],
    }
}

/// The endpoint has answered and its text has been read. Hosts that were
/// read replace the inventory, the known hosts and the selection, and both
/// slots are emptied. Where the filter could not be used there are none: the
/// record stays as it is, the job slot is emptied and the reload timer is
/// left to try again.
pub open spec fn on_inventory_parsed(s: ModelState, parsed: Option<Seq<Seq<char>>>) -> Outcome {
    if let Some(hosts) = parsed {
        Outcome {
            state: ModelState {
                data: SessionView {
                    inventory: hosts,
                    hosts_all: hosts,
                    hosts_picked: hosts,
                    ..s.data
                },
                job: None,
                job_onload: None,
            },
            effects: seq![
                EffectView::Console(
                    Level::Info,
                    "Inventory loaded with "@ + decimal(hosts.len()) + " hosts!"@,
                ),
            ] + cancel_job(s.job) + cancel_autoload(s.job_onload),
        }
    } else {
        Outcome {
            state: ModelState { job: None, ..s },
            effects: seq![
                EffectView::Console(Level::Warn, "Invalid filter: "@ + s.data.filter_content),
            ] + cancel_job(s.job),
        }
    }
}

/// The hosts that reading an answer has given, if it has given any.
pub open spec fn parsed_view(parsed: Result<Vec<String>, InventoryError>) -> Option<
    Seq<Seq<char>>,
> {
    match parsed {
        Ok(hosts) => Some(texts(hosts@)),
        Err(_) => None,
    }
}

/// The endpoint has answered with `text`, which is read under the filter of
/// the session.
pub open spec fn on_inventory_loaded(s: ModelState, text: Seq<char>) -> Outcome {
    on_inventory_parsed(
        s,
        if filter_usable(s.data.filter_content) {
            Some(inventory_hosts(s.data.filter_content, text))
        } else {
            None
        },
    )
}

/// The operator asks to deploy. An accepted reference empties the message
/// log and starts the deployment timer in place of whatever job there was;
/// any other adds one message and changes nothing else.
pub open spec fn on_deploy(s: ModelState) -> Outcome {
    if gitref_accepted(s.data.gitref) {
        Outcome {
            state: ModelState {
                data: SessionView { messages: Seq::empty(), ..s.data },
                job: Some(Job::Deploying),
                ..s
            },
            effects: cancel_job(s.job) + seq![
                EffectView::StartDeployTicks { period_ms: DEPLOY_TICK_MS },
                EffectView::ConsoleClear,
                EffectView::Console(Level::Log, "GitRef: "@ + s.data.gitref),
            ],
        }
    } else {
        Outcome {
            state: ModelState {
                data: SessionView {
                    messages: s.data.messages.push("Wrong GitRef given!"@),
                    ..s.data
                },
                ..s
            },
            effects: Seq::empty(),
        }
    }
}

/// The operator stops the job: the slot is emptied, with or without a job
/// in it, and the message is logged and persisted.
pub open spec fn on_abort(s: ModelState) -> Outcome {
    let data = SessionView { messages: s.data.messages.push("Aborted!"@), ..s.data };
    Outcome {
        state: ModelState { data, job: None, ..s },
        effects: cancel_job(s.job) + seq![EffectView::Console(Level::Warn, "Aborted!"@)]
            + store_effects(data),
    }
}

/// A deployment has ended.
pub open spec fn on_done(s: ModelState) -> Outcome {
    let data = SessionView { messages: s.data.messages.push("Done!"@), ..s.data };
    Outcome {
        state: ModelState { data, job: None, ..s },
        effects: seq![EffectView::Console(Level::Info, "Done!"@)] + store_effects(data)
            + cancel_job(s.job),
    }
}

/// The deployment timer has fired: one more message, persisted.
pub open spec fn on_deploy_steps(s: ModelState) -> Outcome {
    let data = SessionView { messages: s.data.messages.push("DeploySteps!"@), ..s.data };
    Outcome {
        state: ModelState { data, ..s },
        effects: seq![EffectView::ConsoleCount("DeploySteps GitRef: "@ + s.data.gitref)]
            + store_effects(data),
    }
}

/// The operator has edited the deployment reference.
pub open spec fn on_set_gitref(s: ModelState, value: Seq<char>) -> Outcome {
    let data = SessionView { gitref: value, ..s.data };
    Outcome {
        state: ModelState { data, job_onload: Some(AUTOLOAD_MS), ..s },
        effects: store_effects(data) + seq![
            EffectView::Console(Level::Log, "SetGitRef: "@ + value),
        ] + autoload_effects(s.job_onload),
    }
}

/// The operator has edited the host filter.
pub open spec fn on_set_content_filter(s: ModelState, value: Seq<char>) -> Outcome {
    let data = SessionView { filter_content: value, ..s.data };
    Outcome {
        state: ModelState { data, job_onload: Some(AUTOLOAD_MS), ..s },
        effects: store_effects(data) + seq![
            EffectView::Console(Level::Log, "SetContentFilter: "@ + value),
        ] + autoload_effects(s.job_onload),
    }
}

/// An input element has changed. A selection replaces the picked hosts; the
/// other two shapes change nothing.
pub open spec fn on_set_or_unset_host(s: ModelState, change: ChangeView) -> Outcome {
    match change {
        ChangeView::Select(hosts) => {
            let data = SessionView { hosts_picked: hosts, ..s.data };
            Outcome {
                state: ModelState { data, ..s },
                effects: store_effects(data) + seq![
                    EffectView::Console(Level::Log, "Hosts Selected: "@ + decimal(hosts.len())),
                ],
            }
        },
        ChangeView::Value(host) => Outcome {
            state: s,
            effects: seq![
                EffectView::Console(Level::Log, "NoOp for Selected Host: "@ + host),
            ],
        },
        ChangeView::Files(names) => Outcome {
            state: s,
            effects: seq![
                EffectView::Console(
                    Level::Log,
                    "NoOp for ChangeData::Files(_): "@ + listed(names),
                ),
            ],
        },
    }
}

/// The operator asks to persist the session.
pub open spec fn on_store_data(s: ModelState) -> Outcome {
    Outcome { state: s, effects: store_effects(s.data) }
}

/// The operator asks for the persisted session. A record that was found
/// replaces the current one; without one nothing changes. The slots are
/// untouched either way.
pub open spec fn on_restore_data(s: ModelState, stored: Option<SessionView>) -> Outcome {
    match stored {
        Some(data) => Outcome {
            state: ModelState { data, ..s },
            effects: seq![EffectView::Console(Level::Log, "Restored app state!"@)],
        },
        None => Outcome {
            state: s,
            effects: seq![EffectView::Console(Level::Log, "No app state!"@)],
        },
    }
}

/// The state after an event and the effects the event asks for.
pub open spec fn step(s: ModelState, msg: MsgView) -> Outcome {
    match msg {
        MsgView::Abort => on_abort(s),
        MsgView::Done => on_done(s),
        MsgView::DeploySteps => on_deploy_steps(s),
        MsgView::Deploy => on_deploy(s),
        MsgView::SetGitRef(value) => on_set_gitref(s, value),
        MsgView::SetOrUnsetHost(change) => on_set_or_unset_host(s, change),
        MsgView::InventoryFetching => on_inventory_fetching(s),
        MsgView::InventoryLoad => on_inventory_load(s),
        MsgView::InventoryLoaded(text) => on_inventory_loaded(s, text),
        MsgView::StoreData => on_store_data(s),
        MsgView::RestoreData(stored) => on_restore_data(s, stored),
        MsgView::SetContentFilter(value) => on_set_content_filter(s, value),
    }
}

/// A session: the persisted record and what occupies the two slots.
#[derive(Debug)]
pub struct Model {
    /// The persisted record.
    pub data: CenDashData,
    /// The job slot: at most one fetch or deployment at a time.
    pub job: Option<Job>,
    /// The reload slot: the period of the inventory reload timer, if one is
    /// running.
    pub job_onload: Option<u64>,
}

/// What an event has done besides changing the session.
#[derive(Debug)]
pub struct Update {
    /// Whether the session is to be rendered again.
    pub should_render: bool,
    /// What the surroundings are asked to do, in order.
    pub effects: Vec<Effect>,
}

impl Model {
    /// The session as plain values.
    pub open spec fn state(&self) -> ModelState {
        ModelState { data: self.data@, job: self.job, job_onload: self.job_onload }
    }

    /// The state in which every session begins: an empty record, no job, and
    /// the reload timer asked for, so that the inventory gets loaded.
    pub open spec fn initial() -> Outcome {
        Outcome {
            state: ModelState {
                data: SessionView::empty(),
                job: None,
                job_onload: Some(STARTUP_MS),
            },
            effects: seq![EffectView::ScheduleAutoload { period_ms: STARTUP_MS }],
        }
    }

    /// Begins a session.
    pub fn create() -> (result: (Model, Vec<Effect>))
        ensures
            result.0.state() == Self::initial().state,
            effect_views(result.1@) == Self::initial().effects,
    {
        let model = Model { data: CenDashData::default(), job: None, job_onload: Some(STARTUP_MS) };
        let mut effects: Vec<Effect> = Vec::new();
        assert(effect_views(effects@) =~= Seq::empty());
        emit(&mut effects, Effect::ScheduleAutoload { period_ms: STARTUP_MS });
        assert(effect_views(effects@) =~= Self::initial().effects);
        (model, effects)
    }

    /// Tells whether the job slot is occupied.
    pub fn has_active_job(&self) -> (result: bool)
        ensures
            result == self.state().job is Some,
    {
        self.job.is_some()
    }

    /// Asks for the record to be persisted as it is now.
    pub fn store_state(&self, effects: &mut Vec<Effect>)
        ensures
            effect_views(final(effects)@) == effect_views(old(effects)@) + store_effects(
                self.data@,
            ),
    {
        emit(effects, Effect::Store(self.data.clone()));
        emit(effects, Effect::Console(Level::Log, "Stored state data".to_owned()));
        assert(effect_views(effects@) =~= effect_views(old(effects)@) + store_effects(self.data@));
    }

    /// Takes over the record that the storage slot held, if it held one.
    pub fn restore_state(&mut self, stored: Option<CenDashData>, effects: &mut Vec<Effect>)
        ensures
            final(self).state() == on_restore_data(old(self).state(), stored_view(stored)).state,
            effect_views(final(effects)@) == effect_views(old(effects)@) + on_restore_data(
                old(self).state(),
                stored_view(stored),
            ).effects,
    {
        match stored {
            Some(data) => {
                self.data = data;
                emit(effects, Effect::Console(Level::Log, "Restored app state!".to_owned()));
                assert(effect_views(effects@) =~= effect_views(old(effects)@) + seq![
                    EffectView::Console(Level::Log, "Restored app state!"@),
                ]);
            },
            None => {
                emit(effects, Effect::Console(Level::Log, "No app state!".to_owned()));
                assert(effect_views(effects@) =~= effect_views(old(effects)@) + seq![
                    EffectView::Console(Level::Log, "No app state!"@),
                ]);
            },
        }
    }

    /// Takes over the hosts read from an answer of the inventory endpoint,
    /// or reports that the filter kept the answer from being read.
    pub fn inventory_parsed(
        &mut self,
        parsed: Result<Vec<String>, InventoryError>,
        effects: &mut Vec<Effect>,
    )
        ensures
            final(self).state() == on_inventory_parsed(old(self).state(), parsed_view(parsed)).state,
            effect_views(final(effects)@) == effect_views(old(effects)@) + on_inventory_parsed(
                old(self).state(),
                parsed_view(parsed),
            ).effects,
    {
        match parsed {
            Ok(hosts) => {
                let mut line = join("Inventory loaded with ", to_decimal(hosts.len()).as_str());
                line.append(" hosts!");
                emit(effects, Effect::Console(Level::Info, line));
                self.data.hosts_all = copy_texts(&hosts);
                self.data.hosts_picked = copy_texts(&hosts);
                self.data.inventory = hosts;
                self.clear_job(effects);
                if self.job_onload.is_some() {
                    emit(effects, Effect::CancelAutoload);
                }
                self.job_onload = None;
                assert(self.state() =~~= on_inventory_parsed(
                    old(self).state(),
                    Some(texts(hosts@)),
                ).state);
                assert(effect_views(effects@) =~~= effect_views(old(effects)@)
                    + on_inventory_parsed(old(self).state(), Some(texts(hosts@))).effects);
            },
            Err(_) => {
                emit(
                    effects,
                    Effect::Console(
                        Level::Warn,
                        join("Invalid filter: ", self.data.filter_content.as_str()),
                    ),
                );
                self.clear_job(effects);
                assert(effect_views(effects@) =~~= effect_views(old(effects)@)
                    + on_inventory_parsed(old(self).state(), None).effects);
            },
        }
    }

    /// Replaces the reload timer by one that starts now.
    pub fn autoload_inventory(&mut self, effects: &mut Vec<Effect>)
        ensures
            final(self).state() == (ModelState {
                job_onload: Some(AUTOLOAD_MS),
                ..old(self).state()
            }),
            effect_views(final(effects)@) == effect_views(old(effects)@) + autoload_effects(
                old(self).job_onload,
            ),
    {
        if self.job_onload.is_some() {
            emit(effects, Effect::CancelAutoload);
        }
        emit(effects, Effect::ScheduleAutoload { period_ms: AUTOLOAD_MS });
        self.job_onload = Some(AUTOLOAD_MS);
        assert(effect_views(effects@) =~= effect_views(old(effects)@) + autoload_effects(
            old(self).job_onload,
        ));
    }

    /// Applies one event to the session and says what the surroundings are
    /// to do about it.
    pub fn update(&mut self, msg: Msg) -> (result: Update)
        ensures
            final(self).state() == step(old(self).state(), msg@).state,
            effect_views(result.effects@) == step(old(self).state(), msg@).effects,
            result.should_render,
    {
        let mut effects: Vec<Effect> = Vec::new();
        assert(effect_views(effects@) =~= Seq::empty());
        match msg {
            Msg::InventoryLoad => {
                self.clear_job(&mut effects);
                emit(&mut effects, Effect::FetchInventory);
                self.job = Some(Job::Loading);
            },
            Msg::InventoryFetching => {
                emit(
                    &mut effects,
                    Effect::Console(Level::Log, "Seeking /static/inventory\u{2026}".to_owned()),
                );
            },
            Msg::InventoryLoaded(text) => {
                let parsed = parse_inventory(text.as_str(), self.data.filter_content.as_str());
                self.inventory_parsed(parsed, &mut effects);
            },
            Msg::Deploy => {
                if self.data.gitref.as_str().as_bytes().len() > 3 {
                    self.clear_job(&mut effects);
                    emit(&mut effects, Effect::StartDeployTicks { period_ms: DEPLOY_TICK_MS });
                    self.job = Some(Job::Deploying);
                    self.data.messages = Vec::new();
                    emit(&mut effects, Effect::ConsoleClear);
                    emit(
                        &mut effects,
                        Effect::Console(Level::Log, join("GitRef: ", self.data.gitref.as_str())),
                    );
                } else {
                    append_text(&mut self.data.messages, "Wrong GitRef given!".to_owned());
                }
            },
            Msg::Abort => {
                self.clear_job(&mut effects);
                append_text(&mut self.data.messages, "Aborted!".to_owned());
                emit(&mut effects, Effect::Console(Level::Warn, "Aborted!".to_owned()));
                self.store_state(&mut effects);
            },
            Msg::Done => {
                append_text(&mut self.data.messages, "Done!".to_owned());
                emit(&mut effects, Effect::Console(Level::Info, "Done!".to_owned()));
                self.store_state(&mut effects);
                self.clear_job(&mut effects);
            },
            Msg::DeploySteps => {
                append_text(&mut self.data.messages, "DeploySteps!".to_owned());
                emit(
                    &mut effects,
                    Effect::ConsoleCount(join("DeploySteps GitRef: ", self.data.gitref.as_str())),
                );
                self.store_state(&mut effects);
            },
            Msg::SetGitRef(gitref) => {
                let line = join("SetGitRef: ", gitref.as_str());
                self.data.gitref = gitref;
                self.store_state(&mut effects);
                emit(&mut effects, Effect::Console(Level::Log, line));
                self.autoload_inventory(&mut effects);
            },
            Msg::SetContentFilter(filter) => {
                let line = join("SetContentFilter: ", filter.as_str());
                self.data.filter_content = filter;
                self.store_state(&mut effects);
                emit(&mut effects, Effect::Console(Level::Log, line));
                self.autoload_inventory(&mut effects);
            },
            Msg::SetOrUnsetHost(change) => {
                match change {
                    ChangeData::Select(hosts) => {
                        let line = join("Hosts Selected: ", to_decimal(hosts.len()).as_str());
                        self.data.hosts_picked = hosts;
                        self.store_state(&mut effects);
                        emit(&mut effects, Effect::Console(Level::Log, line));
                    },
                    ChangeData::Value(host) => {
                        emit(
                            &mut effects,
                            Effect::Console(
                                Level::Log,
                                join("NoOp for Selected Host: ", host.as_str()),
                            ),
                        );
                    },
                    ChangeData::Files(names) => {
                        emit(
                            &mut effects,
                            Effect::Console(
                                Level::Log,
                                join(
                                    "NoOp for ChangeData::Files(_): ",
                                    list_texts(&names).as_str(),
                                ),
                            ),
                        );
                    },
                }
            },
            Msg::StoreData => {
                self.store_state(&mut effects);
            },
            Msg::RestoreData(stored) => {
                self.restore_state(stored, &mut effects);
            },
        }
        assert(self.state() =~~= step(old(self).state(), msg@).state);
        assert(effect_views(effects@) =~~= step(old(self).state(), msg@).effects);
        Update { should_render: true, effects }
    }

    /// Empties the job slot, asking for the job in it to be cancelled.
    fn clear_job(&mut self, effects: &mut Vec<Effect>)
        ensures
            final(self).state() == (ModelState { job: None, ..old(self).state() }),
            effect_views(final(effects)@) == effect_views(old(effects)@) + cancel_job(
                old(self).job,
            ),
    {
        if self.job.is_some() {
            emit(effects, Effect::CancelJob);
        }
        self.job = None;
        assert(effect_views(effects@) =~= effect_views(old(effects)@) + cancel_job(old(self).job));
    }
}

} // verus!
