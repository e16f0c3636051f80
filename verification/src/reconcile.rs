//! Reconciler: compute the ordered list of migrations not yet applied.

use vstd::prelude::*;

use crate::data::{record_counts_applied, MigrationDescriptor, MigrationRecord};

verus! {

/// A name is applied when some record carries it and was not rolled back.
/// A migration whose only records are rolled back is eligible to run again.
pub open spec fn spec_applied(name: Seq<char>, recs: Seq<MigrationRecord>) -> bool {
    exists|j: int|
        0 <= j < recs.len() && recs[j].migration_name@ == name && record_counts_applied(recs[j])
}

/// The descriptors whose names are not applied, in their original order.
pub open spec fn spec_unapplied(
    descs: Seq<MigrationDescriptor>,
    recs: Seq<MigrationRecord>,
) -> Seq<MigrationDescriptor>
    decreases descs.len(),
{
    if descs.len() == 0 {
        Seq::empty()
    } else {
        let rest = spec_unapplied(descs.drop_last(), recs);
        if spec_applied(descs.last().name@, recs) {
            rest
        } else {
            rest.push(descs.last())
        }
    }
}

/// Whether `name` matches a record that still counts as applied.
fn is_applied(name: &String, recs: &Vec<MigrationRecord>) -> (r: bool)
    ensures
        r == spec_applied(name@, recs@),
{
    let mut j: usize = 0;
    while j < recs.len()
        invariant
            j <= recs@.len(),
            forall|k: int|
                0 <= k < j ==> !(recs@[k].migration_name@ == name@ && record_counts_applied(
                    recs@[k],
                )),
        decreases recs@.len() - j,
    {
        if recs[j].rolled_back_at.is_none() && recs[j].migration_name.eq(name) {
            return true;
        }
        j += 1;
    }
    false
}

/// Keep, in order, every descriptor without a matching non-rolled-back
/// record. Descriptors are consumed so the selected ones move into the
/// result unchanged.
pub fn unapplied_migrations(
    descs: Vec<MigrationDescriptor>,
    recs: &Vec<MigrationRecord>,
) -> (r: Vec<MigrationDescriptor>)
    ensures
        r@ == spec_unapplied(descs@, recs@),
{
    let ghost all = descs@;
    let mut rest = descs;
    let mut r: Vec<MigrationDescriptor> = Vec::new();
    let ghost mut i: int = 0;
    while rest.len() > 0
        invariant
            0 <= i,
            i + rest@.len() == all.len(),
            rest@ == all.subrange(i, all.len() as int),
            r@ == spec_unapplied(all.take(i), recs@),
        decreases rest@.len(),
    {
        let d = rest.remove(0);
        assert(d == all[i]);
        proof {
            assert(all.take(i + 1).drop_last() =~= all.take(i));
            assert(all.take(i + 1).last() == all[i]);
        }
        if !is_applied(&d.name, recs) {
            r.push(d);
        }
        proof {
            i = i + 1;
            assert(rest@ =~= all.subrange(i, all.len() as int));
        }
    }
    proof {
        assert(all.take(i) =~= all);
    }
    r
}

} // verus!
