//! Whole-run tests: a simulated store, connector and hook runner drive the
//! orchestrator step machine and check the run-level policies.

use migration_core::data::{MigrationDescriptor, MigrationRecord};
use migration_core::detect::{detect_failed_migrations, FoundFailedMigrations};
use migration_core::orchestrate::{begin_run, step, Action, Event, Phase, Step};

fn desc(name: &str, script: &str) -> MigrationDescriptor {
    MigrationDescriptor {
        name: name.to_string(),
        script: script.to_string(),
        before_hook: None,
        before_state: None,
        after_hook: None,
        after_state: None,
    }
}

fn finished_record(id: &str, name: &str) -> MigrationRecord {
    MigrationRecord {
        id: id.to_string(),
        migration_name: name.to_string(),
        started_at: 10,
        finished_at: Some(20),
        rolled_back_at: None,
        logs: None,
    }
}

fn lookup(list: &[(&str, &str)], name: &str) -> Option<String> {
    list.iter().find(|(n, _)| *n == name).map(|(_, m)| m.to_string())
}

#[derive(Debug)]
struct RunLog {
    result: Result<Vec<String>, String>,
    store: Vec<MigrationRecord>,
    script_attempts: Vec<String>,
    script_effects: Vec<String>,
}

/// Drive a run to its terminal step, playing the persistence store, the
/// target connector and the hook runner, with scripted failures per
/// migration name.
fn drive(
    descs: Vec<MigrationDescriptor>,
    mut store: Vec<MigrationRecord>,
    before_fail: &[(&str, &str)],
    script_fail: &[(&str, &str)],
    after_fail: &[(&str, &str)],
) -> Result<RunLog, FoundFailedMigrations> {
    let mut script_attempts: Vec<String> = Vec::new();
    let mut script_effects: Vec<String> = Vec::new();
    let mut next_id: i64 = 0;
    let mut cur = begin_run(descs, &store)?;
    loop {
        match cur {
            Step::Complete {
                applied_migration_names,
            } => {
                return Ok(RunLog {
                    result: Ok(applied_migration_names),
                    store,
                    script_attempts,
                    script_effects,
                });
            }
            Step::Aborted { error } => {
                return Ok(RunLog {
                    result: Err(error),
                    store,
                    script_attempts,
                    script_effects,
                });
            }
            Step::Next { state, action } => {
                let name = state.unapplied[state.index].name.clone();
                let event = match action {
                    Action::RecordMigrationStarted => {
                        next_id += 1;
                        let id = format!("id-{next_id}");
                        store.push(MigrationRecord {
                            id: id.clone(),
                            migration_name: name.clone(),
                            started_at: 100 + next_id,
                            finished_at: None,
                            rolled_back_at: None,
                            logs: None,
                        });
                        Event::StartedOk { id }
                    }
                    Action::RunBeforeHook => match lookup(before_fail, &name) {
                        Some(message) => Event::HookErr { message },
                        None => Event::HookOk,
                    },
                    Action::ApplyScript => {
                        script_attempts.push(name.clone());
                        match lookup(script_fail, &name) {
                            Some(message) => Event::ScriptErr { message },
                            None => {
                                script_effects.push(name.clone());
                                Event::ScriptOk
                            }
                        }
                    }
                    Action::RunAfterHook => match lookup(after_fail, &name) {
                        Some(message) => Event::HookErr { message },
                        None => Event::HookOk,
                    },
                    Action::RecordFailedStep => {
                        if let Phase::RecordingFailure { id, error } = &state.phase {
                            for r in store.iter_mut() {
                                if &r.id == id {
                                    r.logs = Some(error.clone());
                                }
                            }
                            Event::FailedStepRecorded { ok: true }
                        } else {
                            panic!("failed step requested outside a failure phase");
                        }
                    }
                    Action::RecordSuccessfulStep => Event::RecordOk,
                    Action::RecordMigrationFinished => {
                        if let Phase::Finishing { id } = &state.phase {
                            for r in store.iter_mut() {
                                if &r.id == id {
                                    r.finished_at = Some(999);
                                }
                            }
                            Event::RecordOk
                        } else {
                            panic!("finish requested outside the finishing phase");
                        }
                    }
                };
                cur = step(state, event);
            }
        }
    }
}

#[test]
fn scenario_empty_history_applies_all() {
    let descs = vec![desc("20230101_init", "s1"), desc("20230102_add_col", "s2")];
    let log = drive(descs, vec![], &[], &[], &[]).unwrap();
    assert_eq!(
        log.result.unwrap(),
        vec!["20230101_init".to_string(), "20230102_add_col".to_string()]
    );
    assert_eq!(log.store.len(), 2);
    assert!(log.store.iter().all(|r| r.finished_at.is_some()));
    assert_eq!(
        log.script_effects,
        vec!["20230101_init".to_string(), "20230102_add_col".to_string()]
    );
}

#[test]
fn scenario_partial_history_applies_rest() {
    let descs = vec![desc("20230101_init", "s1"), desc("20230102_add_col", "s2")];
    let store = vec![finished_record("a", "20230101_init")];
    let log = drive(descs, store, &[], &[], &[]).unwrap();
    assert_eq!(log.result.unwrap(), vec!["20230102_add_col".to_string()]);
    assert_eq!(log.script_attempts, vec!["20230102_add_col".to_string()]);
}

#[test]
fn scenario_before_hook_failure_skips_script() {
    let descs = vec![desc("20230101_init", "s1")];
    let msg = "[BEFORE] Error while executing.\nSTDOUT: out\nSTDERR: err\n";
    let log = drive(descs, vec![], &[("20230101_init", msg)], &[], &[]).unwrap();
    assert_eq!(log.result.unwrap_err(), msg.to_string());
    // The main script was never invoked for that migration.
    assert!(log.script_attempts.is_empty());
    // Its record ended as a failed step carrying the captured output.
    assert_eq!(log.store.len(), 1);
    assert_eq!(log.store[0].logs, Some(msg.to_string()));
    assert_eq!(log.store[0].finished_at, None);
}

#[test]
fn scenario_after_hook_failure_keeps_script_effect() {
    let descs = vec![desc("20230101_init", "s1")];
    let log = drive(descs, vec![], &[], &[], &[("20230101_init", "after boom")]).unwrap();
    assert_eq!(log.result.unwrap_err(), "after boom".to_string());
    // The target-system effect of the main script persists.
    assert_eq!(log.script_effects, vec!["20230101_init".to_string()]);
    // The record is left without `finished_at`...
    assert_eq!(log.store[0].finished_at, None);
    // ...and a later failure-detector pass reports it as incomplete.
    let report = detect_failed_migrations(&log.store).unwrap_err();
    assert_eq!(report.failures.len(), 1);
    assert_eq!(report.failures[0].migration_name, "20230101_init".to_string());
    assert_eq!(report.failures[0].logs, Some("after boom".to_string()));
}

#[test]
fn ordering_failure_stops_later_migrations() {
    let descs = vec![desc("a", "s1"), desc("b", "s2"), desc("c", "s3")];
    let log = drive(descs, vec![], &[], &[("b", "b failed")], &[]).unwrap();
    assert_eq!(log.result.unwrap_err(), "b failed".to_string());
    // c was never attempted, and no applied list is returned at all.
    assert_eq!(log.script_attempts, vec!["a".to_string(), "b".to_string()]);
    assert_eq!(log.script_effects, vec!["a".to_string()]);
    // b got a record, c did not.
    assert_eq!(log.store.len(), 2);
    assert_eq!(log.store[1].migration_name, "b".to_string());
    assert_eq!(log.store[1].logs, Some("b failed".to_string()));
}

#[test]
fn idempotent_run_issues_no_mutation() {
    let descs = vec![desc("20230101_init", "s1"), desc("20230102_add_col", "s2")];
    let store = vec![
        finished_record("a", "20230101_init"),
        finished_record("b", "20230102_add_col"),
    ];
    let log = drive(descs, store, &[], &[], &[]).unwrap();
    assert_eq!(log.result.unwrap(), Vec::<String>::new());
    let untouched = vec![
        finished_record("a", "20230101_init"),
        finished_record("b", "20230102_add_col"),
    ];
    assert_eq!(log.store, untouched);
    assert!(log.script_attempts.is_empty());
}

#[test]
fn incomplete_history_blocks_run_before_any_script() {
    let descs = vec![desc("20230102_add_col", "s2")];
    let store = vec![MigrationRecord {
        id: "a".to_string(),
        migration_name: "20230101_init".to_string(),
        started_at: 10,
        finished_at: None,
        rolled_back_at: None,
        logs: Some("  boom  ".to_string()),
    }];
    let report = drive(descs, store, &[], &[], &[]).unwrap_err();
    assert_eq!(report.failures.len(), 1);
    assert_eq!(report.failures[0].migration_name, "20230101_init".to_string());
    assert_eq!(report.failures[0].started_at, 10);
    assert_eq!(report.failures[0].logs, Some("boom".to_string()));
}

#[test]
fn start_failure_aborts_without_failed_step() {
    let descs = vec![desc("a", "s1")];
    let first = begin_run(descs, &vec![]).unwrap();
    match first {
        Step::Next { state, action } => {
            assert_eq!(action, Action::RecordMigrationStarted);
            let r = step(
                state,
                Event::StartedErr {
                    error: "store down".to_string(),
                },
            );
            assert_eq!(
                r,
                Step::Aborted {
                    error: "store down".to_string()
                }
            );
        }
        _ => panic!("expected a first action"),
    }
}

#[test]
fn failed_step_recording_error_is_swallowed() {
    let descs = vec![desc("a", "s1")];
    let first = begin_run(descs, &vec![]).unwrap();
    let Step::Next { state, .. } = first else {
        panic!("expected a first action");
    };
    let s1 = step(
        state,
        Event::StartedOk {
            id: "id-1".to_string(),
        },
    );
    let Step::Next { state: s1, action } = s1 else {
        panic!("expected the before-hook");
    };
    assert_eq!(action, Action::RunBeforeHook);
    let s2 = step(
        s1,
        Event::HookErr {
            message: "hook broke".to_string(),
        },
    );
    let Step::Next { state: s2, action } = s2 else {
        panic!("expected the failed-step recording");
    };
    assert_eq!(action, Action::RecordFailedStep);
    // The recording itself fails; the run still aborts with the hook error.
    let r = step(s2, Event::FailedStepRecorded { ok: false });
    assert_eq!(
        r,
        Step::Aborted {
            error: "hook broke".to_string()
        }
    );
}
