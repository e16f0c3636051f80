//! Apply orchestrator: the per-migration lifecycle state machine and the
//! run-level abort-on-first-failure policy.
//!
//! The machine owns every decision; the host owns every effect. `start_run`
//! (or `begin_run`, which first checks the history) yields the first `Step`;
//! while it is `Step::Next`, the host performs the requested `Action`, feeds
//! the outcome back through `step`, and repeats. `Step::Complete` and
//! `Step::Aborted` are terminal: the machine never requests another action,
//! so once a migration fails, no later migration is ever attempted.
//!
//! A run deliberately returns the applied names only on full success: on an
//! abort the partial progress is dropped and only the error surfaces.

use vstd::prelude::*;

use crate::data::{names_of, record_is_incomplete, string_views, MigrationDescriptor,
    MigrationRecord};
use crate::detect::{detail_model, detect_failed_migrations, spec_failures, FailedMigrationDetail,
    FoundFailedMigrations};
use crate::reconcile::{spec_unapplied, unapplied_migrations};

verus! {

/// The lifecycle phase of the migration currently in flight. Each phase
/// names the outside call whose outcome the machine is waiting for.
#[derive(Debug, PartialEq)]
pub enum Phase {
    /// `record_migration_started` was issued for the current descriptor.
    Starting,
    /// The before-hook is running; `id` is the record the store assigned.
    BeforeHook { id: String },
    /// The target connector is applying the main script.
    Script { id: String },
    /// The after-hook is running. The script's effect on the target system
    /// is already in place and is never reversed by this core.
    AfterHook { id: String },
    /// `record_failed_step` was issued, best-effort: whatever the recording
    /// returns, the run aborts with `error`, so failure causes stay
    /// auditable and are never replaced by a recording error.
    RecordingFailure { id: String, error: String },
    /// `record_successful_step` was issued.
    RecordingSuccess { id: String },
    /// `record_migration_finished` was issued.
    Finishing { id: String },
}

/// The state of a run between two outside calls.
#[derive(Debug, PartialEq)]
pub struct RunState {
    /// The unapplied migrations, in order; fixed for the whole run.
    pub unapplied: Vec<MigrationDescriptor>,
    /// Index into `unapplied` of the migration in flight.
    pub index: usize,
    /// Names of the migrations fully applied so far, in order.
    pub applied: Vec<String>,
    pub phase: Phase,
}

/// The outside call the host must perform next. The data it needs sits in
/// the returned state: the current descriptor at `unapplied[index]`, the
/// record id and the failure message in the phase.
#[derive(Clone, Copy, Debug, PartialEq, Eq, Structural)]
pub enum Action {
    /// Call `record_migration_started` with the current descriptor's name
    /// and script.
    RecordMigrationStarted,
    /// Run the current descriptor's before-hook.
    RunBeforeHook,
    /// Have the target connector apply the current descriptor's script.
    ApplyScript,
    /// Run the current descriptor's after-hook.
    RunAfterHook,
    /// Call `record_failed_step` with the id and error in the phase.
    RecordFailedStep,
    /// Call `record_successful_step` with the id in the phase.
    RecordSuccessfulStep,
    /// Call `record_migration_finished` with the id in the phase.
    RecordMigrationFinished,
}

/// The outcome of the outside call the machine was waiting for.
#[derive(Debug, PartialEq)]
pub enum Event {
    /// `record_migration_started` returned the new record's id.
    StartedOk { id: String },
    /// `record_migration_started` failed: fatal, propagated as-is.
    StartedErr { error: String },
    /// The hook phase succeeded (or there was no hook to run).
    HookOk,
    /// The hook phase failed with this message.
    HookErr { message: String },
    /// The connector applied the script.
    ScriptOk,
    /// The connector failed with this message.
    ScriptErr { message: String },
    /// `record_failed_step` came back; `ok` says whether the recording
    /// itself worked, and is deliberately ignored either way.
    FailedStepRecorded { ok: bool },
    /// `record_successful_step` or `record_migration_finished` succeeded.
    RecordOk,
    /// `record_successful_step` or `record_migration_finished` failed.
    RecordErr { error: String },
}

/// What the machine hands back: the next action to perform, or a terminal.
#[derive(Debug, PartialEq)]
pub enum Step {
    Next { state: RunState, action: Action },
    /// The run applied every unapplied migration; here are their names.
    Complete { applied_migration_names: Vec<String> },
    /// The run stops here; later migrations are never attempted, and the
    /// partial progress is dropped in favour of the error alone.
    Aborted { error: String },
}

/// Mathematical mirror of `Phase`.
#[verifier::ext_equal]
pub enum PhaseModel {
    Starting,
    BeforeHook { id: Seq<char> },
    Script { id: Seq<char> },
    AfterHook { id: Seq<char> },
    RecordingFailure { id: Seq<char>, error: Seq<char> },
    RecordingSuccess { id: Seq<char> },
    Finishing { id: Seq<char> },
}

/// Mathematical mirror of `RunState`: only the names matter to the policy.
#[verifier::ext_equal]
pub struct RunModel {
    pub names: Seq<Seq<char>>,
    pub index: int,
    pub applied: Seq<Seq<char>>,
    pub phase: PhaseModel,
}

/// Mathematical mirror of `Event`.
#[verifier::ext_equal]
pub enum EventModel {
    StartedOk { id: Seq<char> },
    StartedErr { error: Seq<char> },
    HookOk,
    HookErr { message: Seq<char> },
    ScriptOk,
    ScriptErr { message: Seq<char> },
    FailedStepRecorded { ok: bool },
    RecordOk,
    RecordErr { error: Seq<char> },
}

/// Mathematical mirror of `Step`.
#[verifier::ext_equal]
pub enum StepModel {
    Next { state: RunModel, action: Action },
    Complete { applied: Seq<Seq<char>> },
    Aborted { error: Seq<char> },
}

impl Phase {
    pub open spec fn model(self) -> PhaseModel {
        match self {
            Phase::Starting => PhaseModel::Starting,
            Phase::BeforeHook { id } => PhaseModel::BeforeHook { id: id@ },
            Phase::Script { id } => PhaseModel::Script { id: id@ },
            Phase::AfterHook { id } => PhaseModel::AfterHook { id: id@ },
            Phase::RecordingFailure { id, error } => PhaseModel::RecordingFailure {
                id: id@,
                error: error@,
            },
            Phase::RecordingSuccess { id } => PhaseModel::RecordingSuccess { id: id@ },
            Phase::Finishing { id } => PhaseModel::Finishing { id: id@ },
        }
    }
}

impl RunState {
    pub open spec fn model(self) -> RunModel {
        RunModel {
            names: names_of(self.unapplied@),
            index: self.index as int,
            applied: string_views(self.applied@),
            phase: self.phase.model(),
        }
    }

    /// Well-formed between steps: some migration is in flight, and the
    /// applied names are exactly the names before it.
    pub open spec fn wf(self) -> bool {
        self.model().inv()
    }
}

impl RunModel {
    pub open spec fn inv(self) -> bool {
        &&& 0 <= self.index < self.names.len()
        &&& self.applied == self.names.take(self.index)
    }
}

impl Event {
    pub open spec fn model(self) -> EventModel {
        match self {
            Event::StartedOk { id } => EventModel::StartedOk { id: id@ },
            Event::StartedErr { error } => EventModel::StartedErr { error: error@ },
            Event::HookOk => EventModel::HookOk,
            Event::HookErr { message } => EventModel::HookErr { message: message@ },
            Event::ScriptOk => EventModel::ScriptOk,
            Event::ScriptErr { message } => EventModel::ScriptErr { message: message@ },
            Event::FailedStepRecorded { ok } => EventModel::FailedStepRecorded { ok },
            Event::RecordOk => EventModel::RecordOk,
            Event::RecordErr { error } => EventModel::RecordErr { error: error@ },
        }
    }
}

impl Step {
    pub open spec fn model(self) -> StepModel {
        match self {
            Step::Next { state, action } => StepModel::Next { state: state.model(), action },
            Step::Complete { applied_migration_names } => StepModel::Complete {
                applied: string_views(applied_migration_names@),
            },
            Step::Aborted { error } => StepModel::Aborted { error: error@ },
        }
    }
}

/// Which outcomes can answer which phase. The host upholds this by
/// construction: it reports the outcome of exactly the call it was asked
/// to make.
pub open spec fn event_fits(p: PhaseModel, e: EventModel) -> bool {
    match p {
        PhaseModel::Starting => e is StartedOk || e is StartedErr,
        PhaseModel::BeforeHook { .. } => e is HookOk || e is HookErr,
        PhaseModel::Script { .. } => e is ScriptOk || e is ScriptErr,
        PhaseModel::AfterHook { .. } => e is HookOk || e is HookErr,
        PhaseModel::RecordingFailure { .. } => e is FailedStepRecorded,
        PhaseModel::RecordingSuccess { .. } => e is RecordOk || e is RecordErr,
        PhaseModel::Finishing { .. } => e is RecordOk || e is RecordErr,
    }
}

/// The first step of a run over `names`: done at once when nothing is
/// unapplied — an empty applied list and no action, hence no store mutation
/// beyond the initial read — else start the first migration.
pub open spec fn spec_start(names: Seq<Seq<char>>) -> StepModel {
    if names.len() == 0 {
        StepModel::Complete { applied: Seq::empty() }
    } else {
        StepModel::Next {
            state: RunModel { names, index: 0, applied: Seq::empty(), phase: PhaseModel::Starting },
            action: Action::RecordMigrationStarted,
        }
    }
}

/// The transition table of the run. Every failure path leads to
/// `Aborted` — after, for a step failure, one best-effort
/// `RecordFailedStep` whose own outcome cannot change the verdict.
pub open spec fn spec_step(s: RunModel, e: EventModel) -> StepModel {
    match (s.phase, e) {
        (PhaseModel::Starting, EventModel::StartedOk { id }) => StepModel::Next {
            state: RunModel {
                names: s.names,
                index: s.index,
                applied: s.applied,
                phase: PhaseModel::BeforeHook { id },
            },
            action: Action::RunBeforeHook,
        },
        (PhaseModel::Starting, EventModel::StartedErr { error }) => StepModel::Aborted { error },
        (PhaseModel::BeforeHook { id }, EventModel::HookOk) => StepModel::Next {
            state: RunModel {
                names: s.names,
                index: s.index,
                applied: s.applied,
                phase: PhaseModel::Script { id },
            },
            action: Action::ApplyScript,
        },
        (PhaseModel::BeforeHook { id }, EventModel::HookErr { message }) => StepModel::Next {
            state: RunModel {
                names: s.names,
                index: s.index,
                applied: s.applied,
                phase: PhaseModel::RecordingFailure { id, error: message },
            },
            action: Action::RecordFailedStep,
        },
        (PhaseModel::Script { id }, EventModel::ScriptOk) => StepModel::Next {
            state: RunModel {
                names: s.names,
                index: s.index,
                applied: s.applied,
                phase: PhaseModel::AfterHook { id },
            },
            action: Action::RunAfterHook,
        },
        (PhaseModel::Script { id }, EventModel::ScriptErr { message }) => StepModel::Next {
            state: RunModel {
                names: s.names,
                index: s.index,
                applied: s.applied,
                phase: PhaseModel::RecordingFailure { id, error: message },
            },
            action: Action::RecordFailedStep,
        },
        (PhaseModel::AfterHook { id }, EventModel::HookOk) => StepModel::Next {
            state: RunModel {
                names: s.names,
                index: s.index,
                applied: s.applied,
                phase: PhaseModel::RecordingSuccess { id },
            },
            action: Action::RecordSuccessfulStep,
        },
        (PhaseModel::AfterHook { id }, EventModel::HookErr { message }) => StepModel::Next {
            state: RunModel {
                names: s.names,
                index: s.index,
                applied: s.applied,
                phase: PhaseModel::RecordingFailure { id, error: message },
            },
            action: Action::RecordFailedStep,
        },
        (
            PhaseModel::RecordingFailure { id, error },
            EventModel::FailedStepRecorded { .. },
        ) => StepModel::Aborted { error },
        (PhaseModel::RecordingSuccess { id }, EventModel::RecordOk) => StepModel::Next {
            state: RunModel {
                names: s.names,
                index: s.index,
                applied: s.applied,
                phase: PhaseModel::Finishing { id },
            },
            action: Action::RecordMigrationFinished,
        },
        (PhaseModel::RecordingSuccess { .. }, EventModel::RecordErr { error }) => StepModel::Aborted {
            error,
        },
        (PhaseModel::Finishing { .. }, EventModel::RecordOk) => {
            let applied = s.applied.push(s.names[s.index]);
            if s.index + 1 == s.names.len() {
                StepModel::Complete { applied }
            } else {
                StepModel::Next {
                    state: RunModel {
                        names: s.names,
                        index: s.index + 1,
                        applied,
                        phase: PhaseModel::Starting,
                    },
                    action: Action::RecordMigrationStarted,
                }
            }
        },
        (PhaseModel::Finishing { .. }, EventModel::RecordErr { error }) => StepModel::Aborted {
            error,
        },
        _ => arbitrary(),
    }
}

/// The result of feeding a whole event sequence, one per requested action.
/// A terminal step absorbs whatever follows: no action is requested, so no
/// event can change it.
pub open spec fn run_events(r: StepModel, events: Seq<EventModel>) -> StepModel
    decreases events.len(),
{
    if events.len() == 0 {
        r
    } else {
        match r {
            StepModel::Next { state, action } => run_events(
                spec_step(state, events.first()),
                events.drop_first(),
            ),
            _ => r,
        }
    }
}

/// Begin a run over the already-reconciled unapplied list.
pub fn start_run(unapplied: Vec<MigrationDescriptor>) -> (r: Step)
    ensures
        r.model() == spec_start(names_of(unapplied@)),
        r matches Step::Next { state, .. } ==> state.wf() && state.unapplied == unapplied,
{
    if unapplied.len() == 0 {
        let r = Step::Complete { applied_migration_names: Vec::new() };
        proof {
            assert(r.model() =~~= spec_start(names_of(unapplied@)));
        }
        r
    } else {
        let state = RunState {
            unapplied,
            index: 0,
            applied: Vec::new(),
            phase: Phase::Starting,
        };
        let r = Step::Next { state, action: Action::RecordMigrationStarted };
        proof {
            assert(string_views(Seq::<String>::empty()) =~= names_of(
                r->Next_state.unapplied@,
            ).take(0));
            assert(r.model() =~~= spec_start(names_of(r->Next_state.unapplied@)));
        }
        r
    }
}

/// One transition: absorb the outcome of the last requested action and say
/// what comes next, exactly as `spec_step` lays it down.
pub fn step(state: RunState, event: Event) -> (r: Step)
    requires
        state.wf(),
        event_fits(state.model().phase, event.model()),
    ensures
        r.model() == spec_step(state.model(), event.model()),
        r matches Step::Next { state: s2, .. } ==> s2.wf() && s2.unapplied == state.unapplied,
{
    let ghost sm = state.model();
    let ghost em = event.model();
    let RunState { unapplied, index, applied, phase } = state;
    match (phase, event) {
        (Phase::Starting, Event::StartedOk { id }) => {
            let r = Step::Next {
                state: RunState { unapplied, index, applied, phase: Phase::BeforeHook { id } },
                action: Action::RunBeforeHook,
            };
            proof {
                assert(r.model() =~~= spec_step(sm, em));
            }
            r
        },
        (Phase::Starting, Event::StartedErr { error }) => Step::Aborted { error },
        (Phase::BeforeHook { id }, Event::HookOk) => {
            let r = Step::Next {
                state: RunState { unapplied, index, applied, phase: Phase::Script { id } },
                action: Action::ApplyScript,
            };
            proof {
                assert(r.model() =~~= spec_step(sm, em));
            }
            r
        },
        (Phase::BeforeHook { id }, Event::HookErr { message }) => {
            let r = Step::Next {
                state: RunState {
                    unapplied,
                    index,
                    applied,
                    phase: Phase::RecordingFailure { id, error: message },
                },
                action: Action::RecordFailedStep,
            };
            proof {
                assert(r.model() =~~= spec_step(sm, em));
            }
            r
        },
        (Phase::Script { id }, Event::ScriptOk) => {
            let r = Step::Next {
                state: RunState { unapplied, index, applied, phase: Phase::AfterHook { id } },
                action: Action::RunAfterHook,
            };
            proof {
                assert(r.model() =~~= spec_step(sm, em));
            }
            r
        },
        (Phase::Script { id }, Event::ScriptErr { message }) => {
            let r = Step::Next {
                state: RunState {
                    unapplied,
                    index,
                    applied,
                    phase: Phase::RecordingFailure { id, error: message },
                },
                action: Action::RecordFailedStep,
            };
            proof {
                assert(r.model() =~~= spec_step(sm, em));
            }
            r
        },
        (Phase::AfterHook { id }, Event::HookOk) => {
            let r = Step::Next {
                state: RunState {
                    unapplied,
                    index,
                    applied,
                    phase: Phase::RecordingSuccess { id },
                },
                action: Action::RecordSuccessfulStep,
            };
            proof {
                assert(r.model() =~~= spec_step(sm, em));
            }
            r
        },
        (Phase::AfterHook { id }, Event::HookErr { message }) => {
            let r = Step::Next {
                state: RunState {
                    unapplied,
                    index,
                    applied,
                    phase: Phase::RecordingFailure { id, error: message },
                },
                action: Action::RecordFailedStep,
            };
            proof {
                assert(r.model() =~~= spec_step(sm, em));
            }
            r
        },
        (Phase::RecordingFailure { id: _, error }, Event::FailedStepRecorded { ok: _ }) => {
            Step::Aborted { error }
        },
        (Phase::RecordingSuccess { id }, Event::RecordOk) => {
            let r = Step::Next {
                state: RunState { unapplied, index, applied, phase: Phase::Finishing { id } },
                action: Action::RecordMigrationFinished,
            };
            proof {
                assert(r.model() =~~= spec_step(sm, em));
            }
            r
        },
        (Phase::RecordingSuccess { .. }, Event::RecordErr { error }) => Step::Aborted { error },
        (Phase::Finishing { .. }, Event::RecordOk) => {
            let name = unapplied[index].name.clone();
            let mut applied = applied;
            applied.push(name);
            proof {
                assert(string_views(applied@) =~= sm.applied.push(sm.names[sm.index]));
            }
            let len = unapplied.len();
            proof {
                assert(index < len);
            }
            let next = index + 1;
            if next == len {
                let r = Step::Complete { applied_migration_names: applied };
                proof {
                    assert(r.model() =~~= spec_step(sm, em));
                }
                r
            } else {
                let r = Step::Next {
                    state: RunState { unapplied, index: next, applied, phase: Phase::Starting },
                    action: Action::RecordMigrationStarted,
                };
                proof {
                    assert(sm.applied.push(sm.names[sm.index]) =~= sm.names.take(sm.index + 1));
                    assert(r.model() =~~= spec_step(sm, em));
                }
                r
            }
        },
        (Phase::Finishing { .. }, Event::RecordErr { error }) => Step::Aborted { error },
        _ => {
            proof {
                assert(false);
            }
            vstd::pervasive::unreached()
        },
    }
}

/// Up-front precondition of any run: the provider the migration source
/// declares must match the connector's identity. A source that declares
/// none passes; a mismatch is a hard, immediate failure with zero side
/// effects attempted.
pub fn provider_allowed(declared: &Option<String>, actual: &String) -> (r: bool)
    ensures
        r == (declared matches Some(d) ==> d@ == actual@),
{
    match declared {
        Some(d) => d.eq(actual),
        None => true,
    }
}

/// The analysis phase of a run: reject a history with incomplete records
/// before any migration is attempted, else reconcile and hand back the
/// first step of the apply loop.
pub fn begin_run(descs: Vec<MigrationDescriptor>, recs: &Vec<MigrationRecord>) -> (r: Result<
    Step,
    FoundFailedMigrations,
>)
    ensures
        r is Ok <==> (forall|i: int| 0 <= i < recs@.len() ==> !record_is_incomplete(recs@[i])),
        r matches Err(f) ==> f.failures@.map_values(|d: FailedMigrationDetail| detail_model(d))
            == spec_failures(recs@),
        r matches Ok(step) ==> step.model() == spec_start(
            names_of(spec_unapplied(descs@, recs@)),
        ) && (step matches Step::Next { state, .. } ==> state.wf() && state.unapplied@
            == spec_unapplied(descs@, recs@)),
{
    match detect_failed_migrations(recs) {
        Err(f) => Err(f),
        Ok(()) => Ok(start_run(unapplied_migrations(descs, recs))),
    }
}

} // verus!
