use cendash::data::CenDashData;
use cendash::event::{fetch_answer, ChangeData, Effect, Level, Msg};
use cendash::inventory::InventoryError;
use cendash::model::{
    Job, Model, AUTOLOAD_MS, DATASTORE_BROWSER_ID, DEPLOY_TICK_MS, INVENTORY_FILE, STARTUP_MS,
};

fn owned(items: &[&str]) -> Vec<String> {
    items.iter().map(|s| s.to_string()).collect()
}

fn fresh() -> Model {
    Model::create().0
}

fn log(text: &str) -> Effect {
    Effect::Console(Level::Log, text.to_string())
}

fn stored(model: &Model) -> Vec<Effect> {
    vec![Effect::Store(model.data.clone()), log("Stored state data")]
}

fn loaded(text: &str) -> Model {
    let mut model = fresh();
    model.update(Msg::InventoryLoad);
    model.update(Msg::InventoryLoaded(text.to_string()));
    model
}

#[test]
fn a_session_begins_empty_with_the_reload_timer_asked_for() {
    let (model, effects) = Model::create();
    assert_eq!(model.data, CenDashData::default());
    assert_eq!(model.data.gitref, "");
    assert_eq!(model.data.filter_content, "");
    assert!(model.data.messages.is_empty());
    assert!(model.data.hosts_all.is_empty());
    assert!(model.data.hosts_picked.is_empty());
    assert!(model.data.inventory.is_empty());
    assert!(model.data.logs.is_empty());
    assert_eq!(model.job, None);
    assert_eq!(model.job_onload, Some(STARTUP_MS));
    assert!(!model.has_active_job());
    assert_eq!(effects, vec![Effect::ScheduleAutoload { period_ms: 0 }]);
}

#[test]
fn the_fixed_names_and_periods() {
    assert_eq!(INVENTORY_FILE, "/inventory");
    assert_eq!(DATASTORE_BROWSER_ID, "cendash-data-store");
    assert_eq!(DEPLOY_TICK_MS, 300);
    assert_eq!(AUTOLOAD_MS, 500);
    assert_eq!(STARTUP_MS, 0);
}

#[test]
fn inventory_load_starts_a_fetch() {
    let mut model = fresh();
    let update = model.update(Msg::InventoryLoad);
    assert!(update.should_render);
    assert_eq!(update.effects, vec![Effect::FetchInventory]);
    assert_eq!(model.job, Some(Job::Loading));
    assert!(model.has_active_job());
    assert_eq!(model.data, CenDashData::default());
}

#[test]
fn inventory_load_cancels_the_job_before_it() {
    let mut model = fresh();
    model.update(Msg::InventoryLoad);
    let update = model.update(Msg::InventoryLoad);
    assert_eq!(update.effects, vec![Effect::CancelJob, Effect::FetchInventory]);
    assert_eq!(model.job, Some(Job::Loading));
}

#[test]
fn a_pending_fetch_is_only_logged() {
    let mut model = fresh();
    model.update(Msg::InventoryLoad);
    let update = model.update(Msg::InventoryFetching);
    assert!(update.should_render);
    assert_eq!(update.effects, vec![log("Seeking /static/inventory…")]);
    assert_eq!(model.job, Some(Job::Loading));
    assert_eq!(model.job_onload, Some(0));
    assert_eq!(model.data, CenDashData::default());
}

#[test]
fn a_loaded_inventory_resets_the_selection() {
    let mut model = fresh();
    model.update(Msg::InventoryLoad);
    model.update(Msg::SetOrUnsetHost(ChangeData::Select(owned(&["old"]))));
    let update = model.update(Msg::InventoryLoaded("[group]\nweb01 extra\nweb02\n\n".to_string()));
    assert_eq!(model.data.inventory, owned(&["web01", "web02"]));
    assert_eq!(model.data.hosts_all, model.data.inventory);
    assert_eq!(model.data.hosts_picked, model.data.inventory);
    assert_eq!(model.job, None);
    assert_eq!(model.job_onload, None);
    assert!(!model.has_active_job());
    assert_eq!(
        update.effects,
        vec![
            Effect::Console(Level::Info, "Inventory loaded with 2 hosts!".to_string()),
            Effect::CancelJob,
            Effect::CancelAutoload,
        ]
    );
}

#[test]
fn a_loaded_inventory_without_job_or_timer_cancels_nothing() {
    let mut model = loaded("a\n");
    let update = model.update(Msg::InventoryLoaded("b\nc\nd\ne\nf\ng\nh\ni\nj\nk\nl\n".to_string()));
    assert_eq!(
        update.effects,
        vec![Effect::Console(Level::Info, "Inventory loaded with 11 hosts!".to_string())]
    );
    assert_eq!(model.data.hosts_all.len(), 11);
    assert_eq!(model.data.hosts_picked, model.data.hosts_all);
    assert_eq!(model.data.inventory, model.data.hosts_all);
}

#[test]
fn the_filter_of_the_session_selects_the_hosts() {
    let mut model = fresh();
    model.update(Msg::SetContentFilter("^web".to_string()));
    model.update(Msg::InventoryLoad);
    model.update(Msg::InventoryLoaded("web01 a\ndb01 b\nweb02\n".to_string()));
    assert_eq!(model.data.hosts_all, owned(&["web01", "web02"]));
    assert_eq!(model.data.hosts_picked, owned(&["web01", "web02"]));
    assert_eq!(model.data.inventory, owned(&["web01", "web02"]));
}

#[test]
fn an_invalid_filter_leaves_the_record_untouched() {
    let mut model = loaded("web01\nweb02\n");
    model.update(Msg::SetOrUnsetHost(ChangeData::Select(owned(&["web02"]))));
    model.update(Msg::SetContentFilter("web(".to_string()));
    model.update(Msg::InventoryLoad);
    let before = model.data.clone();
    let update = model.update(Msg::InventoryLoaded("db01\n".to_string()));
    assert_eq!(model.data, before);
    assert_eq!(model.data.hosts_all, owned(&["web01", "web02"]));
    assert_eq!(model.data.hosts_picked, owned(&["web02"]));
    assert_eq!(model.job, None);
    assert_eq!(model.job_onload, Some(AUTOLOAD_MS));
    assert_eq!(
        update.effects,
        vec![
            Effect::Console(Level::Warn, "Invalid filter: web(".to_string()),
            Effect::CancelJob,
        ]
    );
    model.update(Msg::SetContentFilter("db".to_string()));
    model.update(Msg::InventoryLoaded("db01\nweb03\n".to_string()));
    assert_eq!(model.data.hosts_all, owned(&["db01"]));
}

#[test]
fn short_gitref_is_refused() {
    let mut model = fresh();
    model.update(Msg::SetGitRef("ab".to_string()));
    let update = model.update(Msg::Deploy);
    assert_eq!(model.data.messages, owned(&["Wrong GitRef given!"]));
    assert!(!model.has_active_job());
    assert_eq!(model.job, None);
    assert!(update.effects.is_empty());
    assert!(update.should_render);
}

#[test]
fn refused_deploy_adds_one_message_each_time_and_keeps_the_job() {
    let mut model = fresh();
    model.update(Msg::InventoryLoad);
    model.update(Msg::SetGitRef("abc".to_string()));
    model.update(Msg::Deploy);
    model.update(Msg::Deploy);
    assert_eq!(model.data.messages, owned(&["Wrong GitRef given!", "Wrong GitRef given!"]));
    assert_eq!(model.job, Some(Job::Loading));
    let mut empty = fresh();
    empty.update(Msg::Deploy);
    assert_eq!(empty.data.messages, owned(&["Wrong GitRef given!"]));
    assert_eq!(empty.job, None);
}

#[test]
fn gitref_length_counts_bytes() {
    let mut model = fresh();
    model.update(Msg::SetGitRef("äb".to_string()));
    model.update(Msg::Deploy);
    assert_eq!(model.job, None);
    model.update(Msg::SetGitRef("äbc".to_string()));
    model.update(Msg::Deploy);
    assert_eq!(model.job, Some(Job::Deploying));
    let mut four = fresh();
    four.update(Msg::SetGitRef("abcd".to_string()));
    four.update(Msg::Deploy);
    assert_eq!(four.job, Some(Job::Deploying));
}

#[test]
fn deploy_runs_until_aborted() {
    let mut model = loaded("web01\nweb02\n");
    model.update(Msg::SetGitRef("release-42".to_string()));
    model.update(Msg::Deploy);
    assert!(model.has_active_job());
    assert!(model.data.messages.is_empty());
    let mut ticks = 0;
    while ticks < 5 {
        model.update(Msg::DeploySteps);
        ticks += 1;
        assert_eq!(model.data.messages.len(), ticks);
        assert!(model.has_active_job());
    }
    assert_eq!(model.data.messages, owned(&["DeploySteps!"; 5]));
    model.update(Msg::Abort);
    assert!(!model.has_active_job());
    assert_eq!(model.data.messages.len(), 6);
    assert_eq!(model.data.messages[5], "Aborted!");
}

#[test]
fn accepted_deploy_clears_the_messages_and_starts_the_timer() {
    let mut model = fresh();
    model.update(Msg::Deploy);
    model.update(Msg::SetGitRef("v1.2.3".to_string()));
    assert_eq!(model.data.messages.len(), 1);
    let update = model.update(Msg::Deploy);
    assert!(model.data.messages.is_empty());
    assert_eq!(model.job, Some(Job::Deploying));
    assert_eq!(
        update.effects,
        vec![
            Effect::StartDeployTicks { period_ms: 300 },
            Effect::ConsoleClear,
            log("GitRef: v1.2.3"),
        ]
    );
}

#[test]
fn deploy_over_a_running_job_cancels_it_first() {
    let mut model = fresh();
    model.update(Msg::SetGitRef("main".to_string()));
    model.update(Msg::InventoryLoad);
    let update = model.update(Msg::Deploy);
    assert_eq!(
        update.effects,
        vec![
            Effect::CancelJob,
            Effect::StartDeployTicks { period_ms: 300 },
            Effect::ConsoleClear,
            log("GitRef: main"),
        ]
    );
    assert_eq!(model.job, Some(Job::Deploying));
}

#[test]
fn a_tick_adds_a_message_and_persists() {
    let mut model = fresh();
    model.update(Msg::SetGitRef("main".to_string()));
    model.update(Msg::Deploy);
    let update = model.update(Msg::DeploySteps);
    assert_eq!(model.data.messages, owned(&["DeploySteps!"]));
    let mut expected = vec![Effect::ConsoleCount("DeploySteps GitRef: main".to_string())];
    expected.extend(stored(&model));
    assert_eq!(update.effects, expected);
    assert_eq!(model.job, Some(Job::Deploying));
}

#[test]
fn abort_cancels_logs_and_persists() {
    let mut model = fresh();
    model.update(Msg::SetGitRef("main".to_string()));
    model.update(Msg::Deploy);
    let update = model.update(Msg::Abort);
    assert_eq!(model.job, None);
    assert_eq!(model.data.messages, owned(&["Aborted!"]));
    let mut expected = vec![
        Effect::CancelJob,
        Effect::Console(Level::Warn, "Aborted!".to_string()),
    ];
    expected.extend(stored(&model));
    assert_eq!(update.effects, expected);
}

#[test]
fn abort_twice_is_harmless() {
    let mut model = fresh();
    model.update(Msg::SetGitRef("main".to_string()));
    model.update(Msg::Deploy);
    model.update(Msg::Abort);
    assert!(!model.has_active_job());
    let update = model.update(Msg::Abort);
    assert!(!model.has_active_job());
    assert_eq!(model.data.messages, owned(&["Aborted!", "Aborted!"]));
    let mut expected = vec![Effect::Console(Level::Warn, "Aborted!".to_string())];
    expected.extend(stored(&model));
    assert_eq!(update.effects, expected);
}

#[test]
fn done_logs_persists_and_frees_the_slot() {
    let mut model = fresh();
    model.update(Msg::SetGitRef("main".to_string()));
    model.update(Msg::Deploy);
    let update = model.update(Msg::Done);
    assert_eq!(model.job, None);
    assert_eq!(model.data.messages, owned(&["Done!"]));
    let mut expected = vec![Effect::Console(Level::Info, "Done!".to_string())];
    expected.extend(stored(&model));
    expected.push(Effect::CancelJob);
    assert_eq!(update.effects, expected);
}

#[test]
fn set_gitref_persists_and_reschedules_the_reload() {
    let mut model = fresh();
    let update = model.update(Msg::SetGitRef("feature/x".to_string()));
    assert_eq!(model.data.gitref, "feature/x");
    assert_eq!(model.job_onload, Some(500));
    assert_eq!(model.job, None);
    let mut expected = stored(&model);
    expected.push(log("SetGitRef: feature/x"));
    expected.push(Effect::CancelAutoload);
    expected.push(Effect::ScheduleAutoload { period_ms: 500 });
    assert_eq!(update.effects, expected);
}

#[test]
fn set_filter_persists_and_reschedules_the_reload() {
    let mut model = loaded("a\n");
    assert_eq!(model.job_onload, None);
    let update = model.update(Msg::SetContentFilter("^a".to_string()));
    assert_eq!(model.data.filter_content, "^a");
    assert_eq!(model.job_onload, Some(500));
    let mut expected = stored(&model);
    expected.push(log("SetContentFilter: ^a"));
    expected.push(Effect::ScheduleAutoload { period_ms: 500 });
    assert_eq!(update.effects, expected);
    let again = model.update(Msg::SetContentFilter("^ab".to_string()));
    assert_eq!(again.effects[3], Effect::CancelAutoload);
    assert_eq!(again.effects[4], Effect::ScheduleAutoload { period_ms: 500 });
    assert_eq!(again.effects.len(), 5);
}

#[test]
fn a_selection_replaces_the_picked_hosts() {
    let mut model = loaded("a\nb\nc\n");
    let update = model.update(Msg::SetOrUnsetHost(ChangeData::Select(owned(&["c", "a"]))));
    assert_eq!(model.data.hosts_picked, owned(&["c", "a"]));
    assert_eq!(model.data.hosts_all, owned(&["a", "b", "c"]));
    assert_eq!(model.data.inventory, owned(&["a", "b", "c"]));
    let mut expected = stored(&model);
    expected.push(log("Hosts Selected: 2"));
    assert_eq!(update.effects, expected);
    model.update(Msg::SetOrUnsetHost(ChangeData::Select(Vec::new())));
    assert!(model.data.hosts_picked.is_empty());
}

#[test]
fn value_and_file_changes_do_nothing() {
    let mut model = loaded("a\nb\n");
    let before = model.data.clone();
    let update = model.update(Msg::SetOrUnsetHost(ChangeData::Value("b".to_string())));
    assert_eq!(update.effects, vec![log("NoOp for Selected Host: b")]);
    assert_eq!(model.data, before);
    let update = model.update(Msg::SetOrUnsetHost(ChangeData::Files(owned(&["x.txt", "y.txt"]))));
    assert_eq!(update.effects, vec![log("NoOp for ChangeData::Files(_): x.txt, y.txt")]);
    let update = model.update(Msg::SetOrUnsetHost(ChangeData::Files(Vec::new())));
    assert_eq!(update.effects, vec![log("NoOp for ChangeData::Files(_): ")]);
    assert_eq!(model.data, before);
    assert_eq!(model.job, None);
    assert_eq!(model.job_onload, None);
}

#[test]
fn store_hands_out_the_record_as_it_stands() {
    let mut model = loaded("a\nb\n");
    model.update(Msg::SetGitRef("main".to_string()));
    let before = model.data.clone();
    let update = model.update(Msg::StoreData);
    assert_eq!(update.effects, vec![Effect::Store(before.clone()), log("Stored state data")]);
    assert_eq!(model.data, before);
}

#[test]
fn store_then_restore_brings_the_record_back() {
    let mut model = loaded("a\nb\nc\n");
    model.update(Msg::SetGitRef("release-42".to_string()));
    model.update(Msg::SetContentFilter("[ab]".to_string()));
    model.update(Msg::SetOrUnsetHost(ChangeData::Select(owned(&["b"]))));
    model.update(Msg::Deploy);
    model.update(Msg::DeploySteps);
    let kept = model.data.clone();
    let update = model.update(Msg::StoreData);
    let record = match &update.effects[0] {
        Effect::Store(data) => data.clone(),
        other => panic!("no record stored: {:?}", other),
    };
    model.update(Msg::Abort);
    model.update(Msg::SetGitRef("x".to_string()));
    model.update(Msg::InventoryLoaded("z\n".to_string()));
    assert_ne!(model.data, kept);
    let job = model.job;
    let job_onload = model.job_onload;
    let update = model.update(Msg::RestoreData(Some(record)));
    assert_eq!(model.data, kept);
    assert_eq!(model.job, job);
    assert_eq!(model.job_onload, job_onload);
    assert_eq!(update.effects, vec![log("Restored app state!")]);

    let mut other = fresh();
    other.update(Msg::RestoreData(Some(kept.clone())));
    assert_eq!(other.data, kept);
    assert_eq!(other.job, None);
}

#[test]
fn restore_without_a_record_changes_nothing() {
    let mut model = loaded("a\n");
    model.update(Msg::SetGitRef("main".to_string()));
    model.update(Msg::Deploy);
    let before = model.data.clone();
    let update = model.update(Msg::RestoreData(None));
    assert_eq!(update.effects, vec![log("No app state!")]);
    assert_eq!(model.data, before);
    assert_eq!(model.job, Some(Job::Deploying));
}

#[test]
fn helpers_append_to_the_effects_they_are_given() {
    let mut model = fresh();
    let mut effects = vec![Effect::ConsoleClear];
    model.store_state(&mut effects);
    assert_eq!(
        effects,
        vec![
            Effect::ConsoleClear,
            Effect::Store(CenDashData::default()),
            log("Stored state data"),
        ]
    );
    let mut effects = vec![Effect::ConsoleClear];
    model.autoload_inventory(&mut effects);
    assert_eq!(
        effects,
        vec![
            Effect::ConsoleClear,
            Effect::CancelAutoload,
            Effect::ScheduleAutoload { period_ms: 500 },
        ]
    );
    let mut record = CenDashData::default();
    record.gitref = "main".to_string();
    let mut effects = Vec::new();
    model.restore_state(Some(record.clone()), &mut effects);
    assert_eq!(model.data, record);
    assert_eq!(effects, vec![log("Restored app state!")]);
    model.restore_state(None, &mut effects);
    assert_eq!(model.data, record);
    assert_eq!(effects, vec![log("Restored app state!"), log("No app state!")]);
}

#[test]
fn the_picture_marks_the_picked_hosts() {
    let mut model = loaded("a\nb\nc\n");
    model.update(Msg::SetGitRef("main".to_string()));
    model.update(Msg::SetContentFilter(".".to_string()));
    model.update(Msg::SetOrUnsetHost(ChangeData::Select(owned(&["c", "a"]))));
    model.update(Msg::Deploy);
    model.update(Msg::DeploySteps);
    let picture = model.view();
    assert_eq!(picture.gitref, "main");
    assert_eq!(picture.filter_content, ".");
    assert_eq!(picture.messages, owned(&["DeploySteps!"]));
    assert_eq!(picture.hosts_all, owned(&["a", "b", "c"]));
    assert_eq!(picture.hosts_picked, owned(&["c", "a"]));
    assert_eq!(picture.selected, vec![true, false, true]);
    assert!(picture.has_active_job);
    assert!(picture.deploy_disabled);
    assert!(picture.reload_disabled);
    assert!(!picture.abort_disabled);
    model.update(Msg::Abort);
    let picture = model.view();
    assert!(!picture.has_active_job);
    assert!(!picture.deploy_disabled);
    assert!(!picture.reload_disabled);
    assert!(picture.abort_disabled);
    assert_eq!(picture.messages, owned(&["DeploySteps!", "Aborted!"]));
}

#[test]
fn the_picture_of_a_fresh_session_is_empty() {
    let picture = fresh().view();
    assert_eq!(picture.gitref, "");
    assert_eq!(picture.filter_content, "");
    assert!(picture.messages.is_empty());
    assert!(picture.hosts_all.is_empty());
    assert!(picture.hosts_picked.is_empty());
    assert!(picture.selected.is_empty());
    assert!(!picture.has_active_job);
    assert!(picture.abort_disabled);
}

#[test]
fn every_stored_record_is_the_record_after_the_event() {
    let events = vec![
        Msg::SetGitRef("release-1".to_string()),
        Msg::SetContentFilter("w".to_string()),
        Msg::InventoryLoad,
        Msg::InventoryLoaded("web01\nweb02\ndb01\n".to_string()),
        Msg::SetOrUnsetHost(ChangeData::Select(owned(&["web02"]))),
        Msg::Deploy,
        Msg::DeploySteps,
        Msg::DeploySteps,
        Msg::Abort,
        Msg::Done,
        Msg::StoreData,
    ];
    let mut model = fresh();
    for event in events {
        let update = model.update(event);
        assert!(update.should_render);
        for effect in &update.effects {
            if let Effect::Store(record) = effect {
                assert_eq!(record, &model.data);
            }
        }
        assert_eq!(model.data.hosts_all, model.data.inventory);
        for host in &model.data.hosts_picked {
            assert!(model.data.hosts_all.contains(host));
        }
    }
}

#[test]
fn hosts_that_were_read_replace_all_three_lists() {
    let mut model = fresh();
    model.update(Msg::InventoryLoad);
    let mut effects = Vec::new();
    model.inventory_parsed(Ok(owned(&["x", "y", "z"])), &mut effects);
    assert_eq!(model.data.inventory, owned(&["x", "y", "z"]));
    assert_eq!(model.data.hosts_all, owned(&["x", "y", "z"]));
    assert_eq!(model.data.hosts_picked, owned(&["x", "y", "z"]));
    assert_eq!(model.job, None);
    assert_eq!(model.job_onload, None);
    assert_eq!(
        effects,
        vec![
            Effect::Console(Level::Info, "Inventory loaded with 3 hosts!".to_string()),
            Effect::CancelJob,
            Effect::CancelAutoload,
        ]
    );
    model.inventory_parsed(Ok(Vec::new()), &mut effects);
    assert!(model.data.hosts_all.is_empty());
    assert_eq!(
        effects[3],
        Effect::Console(Level::Info, "Inventory loaded with 0 hosts!".to_string())
    );
    assert_eq!(effects.len(), 4);
}

#[test]
fn an_answer_that_could_not_be_read_frees_the_job_slot_only() {
    let mut model = loaded("a\n");
    model.update(Msg::SetContentFilter("(".to_string()));
    model.update(Msg::InventoryLoad);
    let before = model.data.clone();
    let mut effects = Vec::new();
    model.inventory_parsed(Err(InventoryError::InvalidFilter), &mut effects);
    assert_eq!(model.data, before);
    assert_eq!(model.job, None);
    assert_eq!(model.job_onload, Some(500));
    assert_eq!(
        effects,
        vec![Effect::Console(Level::Warn, "Invalid filter: (".to_string()), Effect::CancelJob]
    );
}

#[test]
fn an_answer_of_the_endpoint_becomes_an_event() {
    assert_eq!(
        fetch_answer(true, Some("web01\nweb02\n".to_string())),
        Msg::InventoryLoaded("web01\nweb02\n".to_string())
    );
    assert_eq!(fetch_answer(true, None), Msg::InventoryLoaded(String::new()));
    assert_eq!(fetch_answer(true, Some(String::new())), Msg::InventoryLoaded(String::new()));
    assert_eq!(fetch_answer(false, Some("web01\n".to_string())), Msg::InventoryFetching);
    assert_eq!(fetch_answer(false, None), Msg::InventoryFetching);
}

#[test]
fn a_failed_fetch_leaves_the_session_waiting() {
    let mut model = fresh();
    model.update(Msg::InventoryLoad);
    let update = model.update(fetch_answer(false, Some("web01\n".to_string())));
    assert_eq!(update.effects, vec![log("Seeking /static/inventory…")]);
    assert_eq!(model.job, Some(Job::Loading));
    assert!(model.data.inventory.is_empty());
    model.update(fetch_answer(true, Some("web01\n".to_string())));
    assert_eq!(model.data.inventory, owned(&["web01"]));
    assert_eq!(model.job, None);
}

#[test]
fn a_fresh_session_reads_every_entry() {
    let mut model = fresh();
    model.update(Msg::InventoryLoad);
    model.update(fetch_answer(true, Some("[g]\nA b\nc\n\n日本\n".to_string())));
    assert_eq!(model.data.inventory, owned(&["A", "c", "日本"]));
}
