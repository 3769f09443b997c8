//! What holds of every session, whatever the events.

use crate::data::SessionView;
use crate::event::{ChangeView, EffectView, Level, MsgView};
use crate::filter::{filter_accepts, filter_usable};
use crate::inventory::{
    first_token, inventory_hosts, is_entry, is_host_line, lemma_host_has_source, split_lines,
};
use crate::model::{gitref_accepted, step, Job, ModelState};
use vstd::prelude::*;

verus! {

/// Every host read out of an inventory text is the host name of one of the
/// text's lines, and that line is let through by the filter, is not empty, does
/// not open with `[` and does not close with `]`.
pub proof fn lemma_parsed_host_has_source_line(pattern: Seq<char>, text: Seq<char>, i: int) -> (j:
    int)
    requires
        0 <= i < inventory_hosts(pattern, text).len(),
    ensures
        0 <= j < split_lines(text).len(),
        filter_accepts(pattern, split_lines(text)[j]),
        split_lines(text)[j].len() > 0,
        split_lines(text)[j].first() != '[',
        split_lines(text)[j].last() != ']',
        inventory_hosts(pattern, text)[i] == first_token(split_lines(text)[j]),
{
    lemma_host_has_source(pattern, split_lines(text), i)
}

/// After an inventory has been loaded under a filter that can be used, the
/// known hosts, the picked hosts and the inventory are one and the same
/// list, and no job is left.
pub proof fn lemma_inventory_load_resets_selection(s: ModelState, text: Seq<char>)
    requires
        filter_usable(s.data.filter_content),
    ensures
        ({
            let after = step(s, MsgView::InventoryLoaded(text)).state;
            &&& after.data.inventory == inventory_hosts(s.data.filter_content, text)
            &&& after.data.hosts_all == after.data.inventory
            &&& after.data.hosts_picked == after.data.inventory
            &&& after.job is None
            &&& after.job_onload is None
        }),
{
}

/// The empty filter, with which every session begins, can always be used
/// and keeps every line that has the shape of an entry.
pub proof fn lemma_empty_filter_keeps_every_entry(line: Seq<char>)
    ensures
        filter_usable(Seq::empty()),
        is_host_line(Seq::empty(), line) == is_entry(line),
{
}

/// An inventory that arrives while the filter cannot be used leaves the
/// record as it was.
pub proof fn lemma_invalid_filter_keeps_record(s: ModelState, text: Seq<char>)
    requires
        !filter_usable(s.data.filter_content),
    ensures
        step(s, MsgView::InventoryLoaded(text)).state.data == s.data,
        step(s, MsgView::InventoryLoaded(text)).state.job is None,
{
}

/// A deploy request with a reference that is not accepted starts no job,
/// asks for nothing, and adds exactly one message.
pub proof fn lemma_deploy_rejected(s: ModelState)
    requires
        !gitref_accepted(s.data.gitref),
    ensures
        ({
            let out = step(s, MsgView::Deploy);
            &&& out.state.job == s.job
            &&& out.state.job_onload == s.job_onload
            &&& out.effects.len() == 0
            &&& out.state.data.messages == s.data.messages.push("Wrong GitRef given!"@)
            &&& out.state.data == SessionView { messages: out.state.data.messages, ..s.data }
        }),
{
}

/// A deploy request with an accepted reference empties the message log and
/// leaves a deployment in the job slot, with its timer asked for.
pub proof fn lemma_deploy_accepted(s: ModelState)
    requires
        gitref_accepted(s.data.gitref),
    ensures
        ({
            let out = step(s, MsgView::Deploy);
            &&& out.state.data.messages.len() == 0
            &&& out.state.job == Some(Job::Deploying)
            &&& out.effects.contains(
                EffectView::StartDeployTicks { period_ms: crate::model::DEPLOY_TICK_MS },
            )
            &&& out.effects.last() == EffectView::Console(Level::Log, "GitRef: "@ + s.data.gitref)
        }),
{
    let out = step(s, MsgView::Deploy);
    let tick = EffectView::StartDeployTicks { period_ms: crate::model::DEPLOY_TICK_MS };
    if s.job is Some {
        assert(out.effects[1] == tick);
    } else {
        assert(out.effects[0] == tick);
    }
}

/// Aborting twice in a row is as safe as aborting once: the job slot is
/// empty after each abort, the second one finds no job to cancel, and each
/// adds its own message.
pub proof fn lemma_abort_twice(s: ModelState)
    ensures
        ({
            let first = step(s, MsgView::Abort);
            let second = step(first.state, MsgView::Abort);
            &&& first.state.job is None
            &&& second.state.job is None
            &&& !second.effects.contains(EffectView::CancelJob)
            &&& first.state.data.messages == s.data.messages.push("Aborted!"@)
            &&& second.state.data.messages == s.data.messages.push("Aborted!"@).push(
                "Aborted!"@,
            )
        }),
{
}

/// What is stored is the record as it stands, and restoring a stored record
/// brings it back field for field, into any session and without touching
/// either slot.
pub proof fn lemma_store_then_restore(s: ModelState, later: ModelState)
    ensures
        step(s, MsgView::StoreData).state == s,
        step(s, MsgView::StoreData).effects[0] == EffectView::Store(s.data),
        step(later, MsgView::RestoreData(Some(s.data))).state.data == s.data,
        step(later, MsgView::RestoreData(Some(s.data))).state.job == later.job,
        step(later, MsgView::RestoreData(Some(s.data))).state.job_onload == later.job_onload,
{
}

/// Restoring from an empty or unreadable slot changes nothing.
pub proof fn lemma_restore_nothing(s: ModelState)
    ensures
        step(s, MsgView::RestoreData(None)).state == s,
{
}

/// Whatever an event asks to be stored is the record as the event leaves
/// it.
pub proof fn lemma_stored_record_is_current(s: ModelState, msg: MsgView, i: int)
    requires
        0 <= i < step(s, msg).effects.len(),
        step(s, msg).effects[i] is Store,
    ensures
        step(s, msg).effects[i] == EffectView::Store(step(s, msg).state.data),
{
}

/// An event that an input element or the storage slot can bring about in a
/// consistent session: a selection holds known hosts only, and a restored
/// record is consistent itself.
pub open spec fn admissible(s: ModelState, msg: MsgView) -> bool {
    match msg {
        MsgView::SetOrUnsetHost(ChangeView::Select(hosts)) => forall|i: int|
            0 <= i < hosts.len() ==> s.data.hosts_all.contains(#[trigger] hosts[i]),
        MsgView::RestoreData(Some(data)) => data.consistent(),
        _ => true,
    }
}

/// A consistent record stays consistent under every admissible event: the
/// picked hosts are known hosts, and the known hosts are the inventory.
pub proof fn lemma_step_keeps_consistency(s: ModelState, msg: MsgView)
    requires
        s.data.consistent(),
        admissible(s, msg),
    ensures
        step(s, msg).state.data.consistent(),
{
    let after = step(s, msg).state.data;
    match msg {
        MsgView::InventoryLoaded(text) => {
            assert forall|i: int| 0 <= i < after.hosts_picked.len() implies after.hosts_all.contains(
                #[trigger] after.hosts_picked[i],
            ) by {
                if filter_usable(s.data.filter_content) {
                    assert(after.hosts_all[i] == after.hosts_picked[i]);
                }
            }
        },
        _ => {},
    }
}

/// The message log is emptied by an accepted deploy request and replaced by
/// a restored record; every other event leaves it as it was or adds to its
/// end.
pub proof fn lemma_messages_only_grow(s: ModelState, msg: MsgView)
    ensures
        ({
            let after = step(s, msg).state.data.messages;
            ||| msg is Deploy && gitref_accepted(s.data.gitref) && after.len() == 0
            ||| msg matches MsgView::RestoreData(Some(data)) && after == data.messages
            ||| s.data.messages.is_prefix_of(after)
        }),
{
}

/// The job slot holds one job at most, and a job that takes the slot sees
/// the one before it cancelled first.
pub proof fn lemma_job_replaced_after_cancel(s: ModelState, msg: MsgView, i: int)
    requires
        s.job is Some,
        0 <= i < step(s, msg).effects.len(),
        step(s, msg).effects[i] is FetchInventory || step(s, msg).effects[i] is StartDeployTicks,
    ensures
        i > 0,
        step(s, msg).effects[0] == EffectView::CancelJob,
{
}

/// A reload timer that takes its slot sees the one before it cancelled
/// first.
pub proof fn lemma_autoload_replaced_after_cancel(s: ModelState, msg: MsgView, i: int)
    requires
        s.job_onload is Some,
        0 <= i < step(s, msg).effects.len(),
        step(s, msg).effects[i] is ScheduleAutoload,
    ensures
        i > 0,
        step(s, msg).effects[i - 1] == EffectView::CancelAutoload,
{
}

/// Only the two requests that start a job fill the job slot, and no event
/// starts a job without filling it.
pub proof fn lemma_job_slot_follows_effects(s: ModelState, msg: MsgView)
    ensures
        step(s, msg).effects.contains(EffectView::FetchInventory) <==> msg is InventoryLoad,
        msg is InventoryLoad ==> step(s, msg).state.job == Some(Job::Loading),
        (exists|i: int|
            0 <= i < step(s, msg).effects.len() && step(s, msg).effects[i] is StartDeployTicks)
            <==> msg is Deploy && gitref_accepted(s.data.gitref),
{
    let out = step(s, msg);
    if msg is InventoryLoad {
        assert(out.effects.last() == EffectView::FetchInventory);
    }
    if msg is Deploy && gitref_accepted(s.data.gitref) {
        if s.job is Some {
            assert(out.effects[1] is StartDeployTicks);
        } else {
            assert(out.effects[0] is StartDeployTicks);
        }
    }
}

} // verus!
