//! The guardian registry: the approvers, found by address, each with the
//! statistics of the approvals it has given.

use crate::types::{Address, Guardian};
use vstd::prelude::*;

verus! {

/// Whether a guardian with this address is on record.
pub open spec fn has_guardian(guardians: Seq<Guardian>, party: Seq<char>) -> bool {
    exists|i: int| 0 <= i < guardians.len() && (#[trigger] guardians[i]).address@ == party
}

/// Where the guardian with this address stands in the registry, if it is on
/// record.
pub open spec fn guardian_index(guardians: Seq<Guardian>, party: Seq<char>) -> int {
    choose|i: int| 0 <= i < guardians.len() && (#[trigger] guardians[i]).address@ == party
}

/// Whether no address is on record twice.
pub open spec fn distinct_guardians(guardians: Seq<Guardian>) -> bool {
    forall|i: int, j: int|
        0 <= i < j < guardians.len() ==> (#[trigger] guardians[i]).address@ != (
        #[trigger] guardians[j]).address@
}

/// The registry after a guardian was put on record: an entry with the same
/// address is replaced, a new address is added at the end.
pub open spec fn with_guardian(guardians: Seq<Guardian>, guardian: Guardian) -> Seq<Guardian> {
    if has_guardian(guardians, guardian.address@) {
        guardians.update(guardian_index(guardians, guardian.address@), guardian)
    } else {
        guardians.push(guardian)
    }
}

/// A guardian after one more approval, given at `now`.
pub open spec fn approval_recorded(guardian: Guardian, now: u64) -> Guardian {
    Guardian {
        approval_count: (guardian.approval_count + 1) as u32,
        last_approval: now,
        ..guardian
    }
}

/// In a registry without repeated addresses, an entry with a given address
/// is the one that `guardian_index` names.
pub proof fn lemma_guardian_index_unique(guardians: Seq<Guardian>, party: Seq<char>, i: int)
    requires
        distinct_guardians(guardians),
        0 <= i < guardians.len(),
        guardians[i].address@ == party,
    ensures
        has_guardian(guardians, party),
        guardian_index(guardians, party) == i,
{
    let j = guardian_index(guardians, party);
    assert(j == i);
}

/// Putting a guardian on record keeps the addresses distinct, keeps every
/// other entry, and makes the guardian the entry for its address.
pub proof fn lemma_with_guardian(guardians: Seq<Guardian>, guardian: Guardian)
    requires
        distinct_guardians(guardians),
    ensures
        distinct_guardians(with_guardian(guardians, guardian)),
        has_guardian(with_guardian(guardians, guardian), guardian.address@),
        with_guardian(guardians, guardian)[guardian_index(
            with_guardian(guardians, guardian),
            guardian.address@,
        )] == guardian,
        with_guardian(guardians, guardian).len() == if has_guardian(guardians, guardian.address@) {
            guardians.len()
        } else {
            guardians.len() + 1
        },
        forall|k: int|
            0 <= k < with_guardian(guardians, guardian).len() ==> {
                ||| (#[trigger] with_guardian(guardians, guardian)[k]) == guardian
                ||| k < guardians.len() && with_guardian(guardians, guardian)[k] == guardians[k]
            },
{
    let after = with_guardian(guardians, guardian);
    let k = if has_guardian(guardians, guardian.address@) {
        guardian_index(guardians, guardian.address@)
    } else {
        guardians.len() as int
    };
    assert forall|i: int, j: int| 0 <= i < j < after.len() implies (#[trigger] after[i]).address@
        != (#[trigger] after[j]).address@ by {}
    lemma_guardian_index_unique(after, guardian.address@, k);
}

/// Rewriting an entry under its own address keeps the addresses distinct and
/// leaves every address where it was.
pub proof fn lemma_guardian_update(guardians: Seq<Guardian>, i: int, guardian: Guardian)
    requires
        distinct_guardians(guardians),
        0 <= i < guardians.len(),
        guardian.address@ == guardians[i].address@,
    ensures
        distinct_guardians(guardians.update(i, guardian)),
        forall|party: Seq<char>| #[trigger]
            has_guardian(guardians.update(i, guardian), party) == has_guardian(guardians, party),
        forall|party: Seq<char>|
            has_guardian(guardians, party) ==> #[trigger] guardian_index(
                guardians.update(i, guardian),
                party,
            ) == guardian_index(guardians, party),
{
    let after = guardians.update(i, guardian);
    assert forall|a: int, b: int| 0 <= a < b < after.len() implies (#[trigger] after[a]).address@
        != (#[trigger] after[b]).address@ by {}
    assert forall|party: Seq<char>| #[trigger]
        has_guardian(after, party) == has_guardian(guardians, party) by {
        if has_guardian(guardians, party) {
            let k = guardian_index(guardians, party);
            assert(after[k].address@ == party);
        }
        if has_guardian(after, party) {
            let k = guardian_index(after, party);
            assert(guardians[k].address@ == party);
        }
    }
    assert forall|party: Seq<char>| has_guardian(guardians, party) implies #[trigger] guardian_index(
        after,
        party,
    ) == guardian_index(guardians, party) by {
        lemma_guardian_index_unique(after, party, guardian_index(guardians, party));
    }
}

/// Looks a guardian up by its address.
pub fn find_guardian(guardians: &Vec<Guardian>, party: &Address) -> (found: Option<usize>)
    ensures
        found is Some == has_guardian(guardians@, party@),
        found matches Some(i) ==> i < guardians.len() && guardians@[i as int].address@ == party@,
        found matches Some(i) ==> forall|k: int|
            0 <= k < i ==> (#[trigger] guardians@[k]).address@ != party@,
        found matches Some(i) ==> distinct_guardians(guardians@) ==> i == guardian_index(
            guardians@,
            party@,
        ),
{
    let mut i: usize = 0;
    while i < guardians.len()
        invariant
            i <= guardians.len(),
            forall|k: int| 0 <= k < i ==> (#[trigger] guardians@[k]).address@ != party@,
        decreases guardians.len() - i,
    {
        if guardians[i].address.same_as(party) {
            proof {
                if distinct_guardians(guardians@) {
                    lemma_guardian_index_unique(guardians@, party@, i as int);
                }
            }
            return Some(i);
        }
        i += 1;
    }
    None
}

/// Decides whether no address is on record twice.
pub fn guardians_distinct(guardians: &Vec<Guardian>) -> (ok: bool)
    ensures
        ok == distinct_guardians(guardians@),
{
    let mut j: usize = 0;
    while j < guardians.len()
        invariant
            j <= guardians.len(),
            forall|a: int, b: int|
                0 <= a < b < j ==> (#[trigger] guardians@[a]).address@ != (
                #[trigger] guardians@[b]).address@,
        decreases guardians.len() - j,
    {
        let mut i: usize = 0;
        while i < j
            invariant
                i <= j < guardians.len(),
                forall|a: int|
                    0 <= a < i ==> (#[trigger] guardians@[a]).address@
                        != guardians@[j as int].address@,
            decreases j - i,
        {
            if guardians[i].address.same_as(&guardians[j].address) {
                return false;
            }
            i += 1;
        }
        j += 1;
    }
    true
}

/// Puts a guardian on record, in place of an entry with the same address if
/// there is one.
pub fn put_guardian(guardians: &mut Vec<Guardian>, guardian: Guardian)
    requires
        distinct_guardians(old(guardians)@),
    ensures
        final(guardians)@ == with_guardian(old(guardians)@, guardian),
        distinct_guardians(final(guardians)@),
{
    proof {
        lemma_with_guardian(guardians@, guardian);
    }
    match find_guardian(guardians, &guardian.address) {
        Some(i) => {
            guardians.set(i, guardian);
        },
        None => {
            guardians.push(guardian);
        },
    }
}

/// Counts one more approval for the guardian at `index` and notes its time.
pub fn record_approval(guardians: &mut Vec<Guardian>, index: usize, now: u64)
    requires
        index < old(guardians).len(),
        old(guardians)@[index as int].approval_count < u32::MAX,
    ensures
        final(guardians)@ == old(guardians)@.update(
            index as int,
            approval_recorded(old(guardians)@[index as int], now),
        ),
{
    let mut guardian = guardians[index].clone();
    guardian.approval_count = guardian.approval_count + 1;
    guardian.last_approval = now;
    guardians.set(index, guardian);
}

} // verus!
