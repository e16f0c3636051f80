//! Run-level guarantees, stated and proved over the machine's models.

use vstd::prelude::*;

use crate::data::{names_of, record_is_incomplete, MigrationDescriptor, MigrationRecord};
use crate::detect::{lemma_failures_empty, spec_failures};
use crate::orchestrate::{run_events, spec_start, spec_step, Action, EventModel, PhaseModel,
    RunModel, StepModel};
use crate::reconcile::{spec_applied, spec_unapplied};

verus! {

/// Idempotence: when every descriptor already has a non-rolled-back record,
/// the reconciler finds nothing to do and the run completes at once with an
/// empty applied list — the very first step is terminal, so the machine
/// never requests a single store mutation beyond the initial read.
pub proof fn lemma_idempotent_run(descs: Seq<MigrationDescriptor>, recs: Seq<MigrationRecord>)
    requires
        forall|i: int| 0 <= i < descs.len() ==> spec_applied(descs[i].name@, recs),
    ensures
        spec_unapplied(descs, recs) == Seq::<MigrationDescriptor>::empty(),
        spec_start(names_of(spec_unapplied(descs, recs))) == (StepModel::Complete {
            applied: Seq::<Seq<char>>::empty(),
        }),
    decreases descs.len(),
{
    if descs.len() == 0 {
        assert(spec_unapplied(descs, recs) =~= Seq::<MigrationDescriptor>::empty());
    } else {
        assert(forall|i: int| 0 <= i < descs.len() - 1 ==> descs.drop_last()[i] == descs[i]);
        lemma_idempotent_run(descs.drop_last(), recs);
        assert(descs.last() == descs[descs.len() - 1]);
    }
    assert(names_of(Seq::<MigrationDescriptor>::empty()) =~= Seq::<
        Seq<char>,
    >::empty());
}

/// Safety precondition: a history with an incomplete record yields a
/// non-empty failure report. Together with `begin_run`'s contract — it
/// returns that report as an error exactly when such a record exists — a
/// run over such a history fails before a `Step` exists at all, so the
/// target connector is never invoked.
pub proof fn lemma_incomplete_record_is_reported(recs: Seq<MigrationRecord>, i: int)
    requires
        0 <= i < recs.len(),
        record_is_incomplete(recs[i]),
    ensures
        spec_failures(recs).len() > 0,
{
    lemma_failures_empty(recs);
}

/// A terminal step absorbs every later event: once the run is complete or
/// aborted, no sequence of outcomes changes it, and no action is ever
/// requested again.
pub proof fn lemma_terminal_absorbs(r: StepModel, events: Seq<EventModel>)
    requires
        !(r is Next),
    ensures
        run_events(r, events) == r,
{
}

/// Strict ordering and early stop: when the main script of the migration in
/// flight fails, the machine asks for one best-effort failure recording and
/// then aborts with that script error — whatever the recording returned and
/// whatever events might follow. No later migration is ever started, the
/// run never completes, and the names accumulated so far are exactly the
/// migrations that came strictly before the failed one.
pub proof fn lemma_early_stop(
    s: RunModel,
    message: Seq<char>,
    ok: bool,
    rest: Seq<EventModel>,
)
    requires
        s.inv(),
        s.phase is Script,
    ensures
        run_events(
            spec_step(s, EventModel::ScriptErr { message }),
            seq![EventModel::FailedStepRecorded { ok }] + rest,
        ) == (StepModel::Aborted { error: message }),
        s.applied == s.names.take(s.index),
{
    let s1 = spec_step(s, EventModel::ScriptErr { message });
    let evs = seq![EventModel::FailedStepRecorded { ok }] + rest;
    assert(evs.first() == (EventModel::FailedStepRecorded { ok }));
    assert(evs.drop_first() =~= rest);
    match s1 {
        StepModel::Next { state: s2, action: _ } => {
            let r2 = spec_step(s2, evs.first());
            assert(r2 == (StepModel::Aborted { error: message }));
            lemma_terminal_absorbs(r2, rest);
        },
        _ => {
            assert(false);
        },
    }
}

/// The six outcomes of one fully successful migration: the store assigns
/// `id`, both hooks and the script succeed, and both step recordings
/// succeed.
pub open spec fn success_events_for(id: Seq<char>) -> Seq<EventModel> {
    seq![
        EventModel::StartedOk { id },
        EventModel::HookOk,
        EventModel::ScriptOk,
        EventModel::HookOk,
        EventModel::RecordOk,
        EventModel::RecordOk,
    ]
}

/// The outcomes of a run in which every migration succeeds, the store
/// assigning one id per migration.
pub open spec fn success_events(ids: Seq<Seq<char>>) -> Seq<EventModel>
    decreases ids.len(),
{
    if ids.len() == 0 {
        Seq::empty()
    } else {
        success_events_for(ids.first()) + success_events(ids.drop_first())
    }
}

/// One fully successful migration moves the machine from starting the
/// migration at `index` to starting the one at `index + 1` — or, when it
/// was the last, completes the run with every name, in order.
proof fn lemma_migration_lifecycle(s: RunModel, id: Seq<char>, rest: Seq<EventModel>)
    requires
        s.inv(),
        s.phase is Starting,
    ensures
        s.index + 1 == s.names.len() ==> run_events(
            StepModel::Next { state: s, action: Action::RecordMigrationStarted },
            success_events_for(id) + rest,
        ) == (StepModel::Complete { applied: s.names }),
        s.index + 1 < s.names.len() ==> run_events(
            StepModel::Next { state: s, action: Action::RecordMigrationStarted },
            success_events_for(id) + rest,
        ) == run_events(
            StepModel::Next {
                state: RunModel {
                    names: s.names,
                    index: s.index + 1,
                    applied: s.names.take(s.index + 1),
                    phase: PhaseModel::Starting,
                },
                action: Action::RecordMigrationStarted,
            },
            rest,
        ),
{
    let e1 = EventModel::StartedOk { id };
    let tail0 = success_events_for(id) + rest;
    let tail1 = tail0.drop_first();
    let tail2 = tail1.drop_first();
    let tail3 = tail2.drop_first();
    let tail4 = tail3.drop_first();
    let tail5 = tail4.drop_first();
    let tail6 = tail5.drop_first();
    assert(tail0.first() == e1);
    assert(tail1.first() == EventModel::HookOk) by {
        assert(tail1[0] == tail0[1]);
    }
    assert(tail2.first() == EventModel::ScriptOk) by {
        assert(tail2[0] == tail0[2]);
    }
    assert(tail3.first() == EventModel::HookOk) by {
        assert(tail3[0] == tail0[3]);
    }
    assert(tail4.first() == EventModel::RecordOk) by {
        assert(tail4[0] == tail0[4]);
    }
    assert(tail5.first() == EventModel::RecordOk) by {
        assert(tail5[0] == tail0[5]);
    }
    assert(tail6 =~= rest) by {
        assert(forall|i: int| 0 <= i < rest.len() ==> tail6[i] == tail0[i + 6] && tail0[i + 6]
            == rest[i]);
    }
    let st1 = RunModel {
        names: s.names,
        index: s.index,
        applied: s.applied,
        phase: PhaseModel::BeforeHook { id },
    };
    let st2 = RunModel { names: s.names, index: s.index, applied: s.applied, phase: PhaseModel::Script { id } };
    let st3 = RunModel {
        names: s.names,
        index: s.index,
        applied: s.applied,
        phase: PhaseModel::AfterHook { id },
    };
    let st4 = RunModel {
        names: s.names,
        index: s.index,
        applied: s.applied,
        phase: PhaseModel::RecordingSuccess { id },
    };
    let st5 = RunModel {
        names: s.names,
        index: s.index,
        applied: s.applied,
        phase: PhaseModel::Finishing { id },
    };
    assert(spec_step(s, tail0.first()) == (StepModel::Next { state: st1, action: Action::RunBeforeHook }));
    assert(spec_step(st1, tail1.first()) == (StepModel::Next { state: st2, action: Action::ApplyScript }));
    assert(spec_step(st2, tail2.first()) == (StepModel::Next { state: st3, action: Action::RunAfterHook }));
    assert(spec_step(st3, tail3.first()) == (StepModel::Next {
        state: st4,
        action: Action::RecordSuccessfulStep,
    }));
    assert(spec_step(st4, tail4.first()) == (StepModel::Next {
        state: st5,
        action: Action::RecordMigrationFinished,
    }));
    let r0 = StepModel::Next { state: s, action: Action::RecordMigrationStarted };
    let r1 = StepModel::Next { state: st1, action: Action::RunBeforeHook };
    let r2 = StepModel::Next { state: st2, action: Action::ApplyScript };
    let r3 = StepModel::Next { state: st3, action: Action::RunAfterHook };
    let r4 = StepModel::Next { state: st4, action: Action::RecordSuccessfulStep };
    let r5 = StepModel::Next { state: st5, action: Action::RecordMigrationFinished };
    assert(tail0.len() == 6 + rest.len());
    assert(run_events(r0, tail0) == run_events(r1, tail1));
    assert(run_events(r1, tail1) == run_events(r2, tail2));
    assert(run_events(r2, tail2) == run_events(r3, tail3));
    assert(run_events(r3, tail3) == run_events(r4, tail4));
    assert(run_events(r4, tail4) == run_events(r5, tail5));
    assert(run_events(r5, tail5) == run_events(spec_step(st5, tail5.first()), tail6));
    assert(run_events(r0, tail0) == run_events(spec_step(st5, tail5.first()), tail6));
    let applied = s.applied.push(s.names[s.index]);
    assert(applied =~= s.names.take(s.index + 1));
    if s.index + 1 == s.names.len() {
        assert(s.names.take(s.index + 1) =~= s.names);
        assert(spec_step(st5, tail5.first()) == (StepModel::Complete { applied: s.names }));
        lemma_terminal_absorbs(StepModel::Complete { applied: s.names }, tail6);
    } else {
        assert(run_events(spec_step(st5, tail5.first()), tail6) == run_events(
            StepModel::Next {
                state: RunModel {
                    names: s.names,
                    index: s.index + 1,
                    applied: s.names.take(s.index + 1),
                    phase: PhaseModel::Starting,
                },
                action: Action::RecordMigrationStarted,
            },
            rest,
        ));
    }
}

/// On a fully successful run, the orchestrator completes with the
/// accumulated names of every migration it was given, in their order.
pub proof fn lemma_successful_run(s: RunModel, ids: Seq<Seq<char>>)
    requires
        s.inv(),
        s.phase is Starting,
        ids.len() == s.names.len() - s.index,
    ensures
        run_events(
            StepModel::Next { state: s, action: Action::RecordMigrationStarted },
            success_events(ids),
        ) == (StepModel::Complete { applied: s.names }),
    decreases ids.len(),
{
    lemma_migration_lifecycle(s, ids.first(), success_events(ids.drop_first()));
    if s.index + 1 < s.names.len() {
        let s2 = RunModel {
            names: s.names,
            index: s.index + 1,
            applied: s.names.take(s.index + 1),
            phase: PhaseModel::Starting,
        };
        lemma_successful_run(s2, ids.drop_first());
    }
}

/// The run-level success policy, from the very first step: a run over a
/// non-empty unapplied list in which every outcome succeeds completes with
/// exactly those names; an empty list completes at once.
pub proof fn lemma_run_applies_all(names: Seq<Seq<char>>, ids: Seq<Seq<char>>)
    requires
        ids.len() == names.len(),
    ensures
        run_events(spec_start(names), success_events(ids)) == (StepModel::Complete {
            applied: names,
        }),
{
    if names.len() == 0 {
        assert(success_events(ids) =~= Seq::<EventModel>::empty());
        assert(spec_start(names) == (StepModel::Complete { applied: Seq::<Seq<char>>::empty() }));
        assert(names =~= Seq::<Seq<char>>::empty());
    } else {
        let s0 = RunModel {
            names,
            index: 0,
            applied: Seq::empty(),
            phase: PhaseModel::Starting,
        };
        assert(s0.applied =~= names.take(0));
        lemma_successful_run(s0, ids);
    }
}

/// Rollback re-eligibility: a descriptor whose every matching record was
/// rolled back is reconciled as unapplied and runs again under its name.
pub proof fn lemma_rolled_back_reeligible(
    descs: Seq<MigrationDescriptor>,
    recs: Seq<MigrationRecord>,
    i: int,
)
    requires
        0 <= i < descs.len(),
        forall|j: int|
            0 <= j < recs.len() && recs[j].migration_name@ == descs[i].name@
                ==> recs[j].rolled_back_at is Some,
    ensures
        spec_unapplied(descs, recs).contains(descs[i]),
    decreases descs.len(),
{
    let r = spec_unapplied(descs, recs);
    if i == descs.len() - 1 {
        assert(descs.last() == descs[i]);
        assert(!spec_applied(descs[i].name@, recs));
        assert(r == spec_unapplied(descs.drop_last(), recs).push(descs[i]));
        assert(r[r.len() - 1] == descs[i]);
    } else {
        assert(forall|k: int| 0 <= k < descs.len() - 1 ==> descs.drop_last()[k] == descs[k]);
        lemma_rolled_back_reeligible(descs.drop_last(), recs, i);
        let rest = spec_unapplied(descs.drop_last(), recs);
        let k = choose|k: int| 0 <= k < rest.len() && rest[k] == descs[i];
        if spec_applied(descs.last().name@, recs) {
            assert(r[k] == descs[i]);
        } else {
            assert(r[k] == descs[i]);
        }
    }
}

} // verus!
