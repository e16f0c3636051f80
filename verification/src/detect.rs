//! Failure detector: scan the persisted history for runs a prior process
//! left incomplete. It must run, and block all new work, before any
//! unapplied migration is attempted. It only reports; clearing an incomplete
//! state is an operator action outside this core.

use vstd::prelude::*;

use crate::data::{record_is_incomplete, MigrationRecord};
use crate::text::{int_text, spec_int_text, spec_trim, trim_chars};
use vstd::string::StringExecFns;

verus! {

/// What the report says about one incomplete record: its name, when it
/// started, and a trimmed log excerpt when the record carries one that is
/// not all whitespace.
#[derive(Debug, PartialEq)]
pub struct FailedMigrationDetail {
    pub migration_name: String,
    pub started_at: i64,
    pub logs: Option<String>,
}

/// The aggregated user-facing report: every incomplete record, in history
/// order.
#[derive(Debug, PartialEq)]
pub struct FoundFailedMigrations {
    pub failures: Vec<FailedMigrationDetail>,
}

/// The abstract content of a report entry: name, start time, log excerpt.
pub open spec fn detail_model(d: FailedMigrationDetail) -> (Seq<char>, i64, Option<Seq<char>>) {
    (
        d.migration_name@,
        d.started_at,
        match d.logs {
            Some(l) => Some(l@),
            None => None,
        },
    )
}

/// The log excerpt owed for a record's logs: the trimmed text, or nothing
/// when the record has no logs or only whitespace.
pub open spec fn spec_log_excerpt(logs: Option<String>) -> Option<Seq<char>> {
    match logs {
        Some(l) => if spec_trim(l@).len() == 0 {
            None
        } else {
            Some(spec_trim(l@))
        },
        None => None,
    }
}

/// The report entry owed for one incomplete record.
pub open spec fn spec_detail_of(r: MigrationRecord) -> (Seq<char>, i64, Option<Seq<char>>) {
    (r.migration_name@, r.started_at, spec_log_excerpt(r.logs))
}

/// The entries owed for a record sequence: one per incomplete record, in
/// order.
pub open spec fn spec_failures(recs: Seq<MigrationRecord>) -> Seq<
    (Seq<char>, i64, Option<Seq<char>>),
>
    decreases recs.len(),
{
    if recs.len() == 0 {
        Seq::empty()
    } else {
        let rest = spec_failures(recs.drop_last());
        if record_is_incomplete(recs.last()) {
            rest.push(spec_detail_of(recs.last()))
        } else {
            rest
        }
    }
}

/// The report is empty exactly when no record is incomplete.
pub proof fn lemma_failures_empty(recs: Seq<MigrationRecord>)
    ensures
        spec_failures(recs).len() == 0 <==> (forall|i: int|
            0 <= i < recs.len() ==> !record_is_incomplete(recs[i])),
    decreases recs.len(),
{
    if recs.len() > 0 {
        lemma_failures_empty(recs.drop_last());
        assert(forall|i: int|
            0 <= i < recs.len() - 1 ==> recs.drop_last()[i] == recs[i]);
        assert(recs.last() == recs[recs.len() - 1]);
    }
}

/// The report line owed for one entry: its name, start time, and the log
/// excerpt when there is one.
pub open spec fn spec_detail_line(entry: (Seq<char>, i64, Option<Seq<char>>)) -> Seq<char> {
    "The `"@ + entry.0 + "` migration started at "@ + spec_int_text(entry.1 as int) + " failed"@
        + (match entry.2 {
        Some(l) => " with the following logs:\n"@ + l,
        None => Seq::empty(),
    }) + "\n"@
}

/// The whole report text: one line per entry, in order.
pub open spec fn spec_report_text(entries: Seq<(Seq<char>, i64, Option<Seq<char>>)>) -> Seq<char>
    decreases entries.len(),
{
    if entries.len() == 0 {
        Seq::empty()
    } else {
        spec_report_text(entries.drop_last()) + spec_detail_line(entries.last())
    }
}

impl FoundFailedMigrations {
    /// Render the report as its human-readable details text, one line per
    /// incomplete migration.
    pub fn details(&self) -> (r: String)
        ensures
            r@ == spec_report_text(
                self.failures@.map_values(|d: FailedMigrationDetail| detail_model(d)),
            ),
    {
        let ghost m = self.failures@.map_values(|d: FailedMigrationDetail| detail_model(d));
        let mut s = String::new();
        let mut i: usize = 0;
        while i < self.failures.len()
            invariant
                i <= self.failures@.len(),
                m == self.failures@.map_values(|d: FailedMigrationDetail| detail_model(d)),
                s@ == spec_report_text(m.take(i as int)),
            decreases self.failures@.len() - i,
        {
            let d = &self.failures[i];
            s.append("The `");
            s.append(d.migration_name.as_str());
            s.append("` migration started at ");
            let ts = int_text(d.started_at);
            s.append(ts.as_str());
            s.append(" failed");
            match &d.logs {
                Some(l) => {
                    s.append(" with the following logs:\n");
                    s.append(l.as_str());
                },
                None => {},
            }
            s.append("\n");
            proof {
                assert(m.take(i + 1).drop_last() =~= m.take(i as int));
                assert(m.take(i + 1).last() == m[i as int]);
                assert(s@ =~= spec_report_text(m.take(i + 1)));
            }
            i += 1;
        }
        proof {
            assert(m.take(i as int) =~= m);
        }
        s
    }
}

/// Build the report entry for one incomplete record.
fn detail_of(r: &MigrationRecord) -> (d: FailedMigrationDetail)
    ensures
        detail_model(d) == spec_detail_of(*r),
{
    let logs: Option<String> = match &r.logs {
        Some(l) => {
            let t = trim_chars(l.as_str());
            if t.as_str().is_empty() {
                None
            } else {
                Some(t)
            }
        },
        None => None,
    };
    FailedMigrationDetail { migration_name: r.migration_name.clone(), started_at: r.started_at, logs }
}

/// Scan the history. Succeed when every record either finished or was
/// rolled back; otherwise report every incomplete record, in order, each
/// with its name, start time and trimmed, non-empty log excerpt when one
/// is present. Nothing is auto-resolved.
pub fn detect_failed_migrations(recs: &Vec<MigrationRecord>) -> (r: Result<
    (),
    FoundFailedMigrations,
>)
    ensures
        r is Ok <==> (forall|i: int| 0 <= i < recs@.len() ==> !record_is_incomplete(recs@[i])),
        r matches Err(f) ==> f.failures@.map_values(|d: FailedMigrationDetail| detail_model(d))
            == spec_failures(recs@),
{
    let mut failures: Vec<FailedMigrationDetail> = Vec::new();
    let mut i: usize = 0;
    while i < recs.len()
        invariant
            i <= recs@.len(),
            failures@.map_values(|d: FailedMigrationDetail| detail_model(d)) == spec_failures(
                recs@.take(i as int),
            ),
        decreases recs@.len() - i,
    {
        proof {
            assert(recs@.take(i + 1).drop_last() =~= recs@.take(i as int));
            assert(recs@.take(i + 1).last() == recs@[i as int]);
        }
        if recs[i].finished_at.is_none() && recs[i].rolled_back_at.is_none() {
            let d = detail_of(&recs[i]);
            failures.push(d);
            proof {
                assert(failures@.map_values(|d: FailedMigrationDetail| detail_model(d))
                    =~= spec_failures(recs@.take(i + 1)));
            }
        } else {
            proof {
                assert(failures@.map_values(|d: FailedMigrationDetail| detail_model(d))
                    =~= spec_failures(recs@.take(i + 1)));
            }
        }
        i += 1;
    }
    proof {
        assert(recs@.take(i as int) =~= recs@);
        lemma_failures_empty(recs@);
    }
    if failures.len() == 0 {
        Ok(())
    } else {
        Err(FoundFailedMigrations { failures })
    }
}

} // verus!
