use vstd::prelude::*;

verus! {

/// `a` is a prefix of `b`.
pub open spec fn is_prefix(a: Seq<u64>, b: Seq<u64>) -> bool {
    a.len() <= b.len() && a == b.subrange(0, a.len() as int)
}

/// Result of one migration run: the ledger afterwards and how many
/// migrations this run applied.
#[derive(Debug, PartialEq, Eq)]
pub struct MigrationOutcome {
    pub applied: Vec<u64>,
    pub newly_applied: usize,
}

/// The bookkeeping rule of the migration runner.
///
/// `defined` is the ordered schema definition (all migration versions
/// shipped with the app); `applied` is the ledger of versions already
/// recorded in the database.  A run succeeds exactly when the ledger is
/// a prefix of the definition; it then applies the missing suffix, so
/// the ledger afterwards equals the definition.  Re-running on an
/// up-to-date ledger succeeds, applies nothing and changes nothing
/// (see `lemma_migrations_idempotent`).
pub fn apply_pending(defined: &Vec<u64>, applied: &Vec<u64>) -> (r: Option<MigrationOutcome>)
    ensures
        r is Some <==> is_prefix(applied@, defined@),
        r matches Some(o) ==> o.applied@ == defined@ && o.newly_applied == defined@.len()
            - applied@.len(),
{
    if applied.len() > defined.len() {
        return None;
    }
    let mut i: usize = 0;
    while i < applied.len()
        invariant
            i <= applied@.len() <= defined@.len(),
            forall|k: int| 0 <= k < i ==> applied@[k] == defined@[k],
        decreases applied@.len() - i,
    {
        if applied[i] != defined[i] {
            proof {
                assert(defined@.subrange(0, applied@.len() as int)[i as int] == defined@[i as int]);
            }
            return None;
        }
        i = i + 1;
    }
    proof {
        assert(applied@ =~= defined@.subrange(0, applied@.len() as int));
    }
    let mut ledger: Vec<u64> = Vec::new();
    let mut j: usize = 0;
    while j < defined.len()
        invariant
            j <= defined@.len(),
            ledger@ =~= defined@.subrange(0, j as int),
        decreases defined@.len() - j,
    {
        ledger.push(defined[j]);
        j = j + 1;
    }
    proof {
        assert(ledger@ =~= defined@);
    }
    Some(MigrationOutcome { applied: ledger, newly_applied: defined.len() - applied.len() })
}

/// Idempotence of migration runs: a ledger that already equals the
/// schema definition is a prefix of it, so a second run succeeds, and
/// by the contract of `apply_pending` it applies zero migrations and
/// returns the ledger unchanged.
pub proof fn lemma_migrations_idempotent(defined: Seq<u64>)
    ensures
        is_prefix(defined, defined),
        defined.len() - defined.len() == 0,
{
    assert(defined =~= defined.subrange(0, defined.len() as int));
}

} // verus!
