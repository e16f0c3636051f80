//! Shared data model: migration descriptors and persisted migration records.

use vstd::prelude::*;

verus! {

/// One declared migration: a unique, lexicographically sortable name, the
/// opaque main script, and the optional before/after hook artifacts that live
/// next to it (paths resolved by fixed convention by the host).
#[derive(Debug, PartialEq)]
pub struct MigrationDescriptor {
    pub name: String,
    pub script: String,
    /// Path of the before-hook script, when one is present.
    pub before_hook: Option<String>,
    /// Path of the state artifact that accompanies the before-hook, when present.
    pub before_state: Option<String>,
    /// Path of the after-hook script, when one is present.
    pub after_hook: Option<String>,
    /// Path of the state artifact that accompanies the after-hook, when present.
    pub after_state: Option<String>,
}

/// One persisted history record. Timestamps are epoch milliseconds as the
/// store reports them; this core only ever tests them for presence.
#[derive(Debug, PartialEq)]
pub struct MigrationRecord {
    /// Store-assigned opaque identifier.
    pub id: String,
    pub migration_name: String,
    pub started_at: i64,
    pub finished_at: Option<i64>,
    pub rolled_back_at: Option<i64>,
    pub logs: Option<String>,
}

/// A record is incomplete when the run that created it neither finished nor
/// was rolled back: it was interrupted, or is still in flight elsewhere.
pub open spec fn record_is_incomplete(r: MigrationRecord) -> bool {
    r.finished_at is None && r.rolled_back_at is None
}

/// A record marks its migration as applied as long as it was not rolled back.
/// `finished_at` plays no part here: an unfinished, non-rolled-back record is
/// rejected by the failure detector before reconciliation ever runs.
pub open spec fn record_counts_applied(r: MigrationRecord) -> bool {
    r.rolled_back_at is None
}

/// The names of a descriptor sequence, as character sequences.
pub open spec fn names_of(descs: Seq<MigrationDescriptor>) -> Seq<Seq<char>> {
    descs.map_values(|d: MigrationDescriptor| d.name@)
}

/// The views of a string sequence.
pub open spec fn string_views(v: Seq<String>) -> Seq<Seq<char>> {
    v.map_values(|s: String| s@)
}

} // verus!
