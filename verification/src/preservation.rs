//! Every step of the engine keeps the invariant of its state.

use crate::ledger::{
    has_wallet, lemma_reserved_total_bounds, lemma_reserved_total_push,
    lemma_reserved_total_update, lemma_wallet_update, lemma_with_wallet, reserved, reserved_total,
    settled, wallet_index, with_wallet,
};
use crate::model::{fresh_wallet, new_transaction, CustodyState};
use crate::registry::{
    approval_recorded, guardian_index, has_guardian, lemma_guardian_update, lemma_with_guardian,
    with_guardian,
};
use crate::types::{
    lists_address, Address, Guardian, SystemLimits, TransactionView, TxStatus, TxType, WalletType,
};
use vstd::prelude::*;

verus! {

/// In a state that meets the invariant, every wallet's earmarked funds are
/// at least zero, and at least the amount of each open transfer from it.
pub proof fn lemma_reserved_covers_open(s: CustodyState, tx_id: u64)
    requires
        s.wf(),
        s.has_transaction(tx_id),
    ensures
        has_wallet(s.wallets, s.transaction(tx_id).from_wallet@),
        s.transaction(tx_id).amount > 0,
        s.wallet(s.transaction(tx_id).from_wallet@).reserved_balance >= 0,
        s.transaction(tx_id).is_open() ==> s.wallet(
            s.transaction(tx_id).from_wallet@,
        ).reserved_balance >= s.transaction(tx_id).amount,
{
    let tx = s.transaction(tx_id);
    let party = tx.from_wallet@;
    assert(s.sound_transaction(tx_id - 1));
    assert forall|i: int| 0 <= i < s.transactions.len() implies (#[trigger] s.transactions[i]).amount
        > 0 by {
        assert(s.sound_transaction(i));
    }
    lemma_reserved_total_bounds(s.transactions, party);
}

/// An accepted initialisation leads to a state that meets the invariant.
pub proof fn lemma_initialized_wf(
    s: CustodyState,
    guardians: Seq<Guardian>,
    hot_wallet: Address,
    cold_wallet: Address,
    limits: SystemLimits,
)
    requires
        s.wf(),
        s.initialize_check(guardians, limits) is Ok,
    ensures
        s.initialized_with(guardians, hot_wallet, cold_wallet, limits).wf(),
{
    let after = s.initialized_with(guardians, hot_wallet, cold_wallet, limits);
    let none = Seq::<Guardian>::empty();
    let one = with_guardian(none, guardians[0]);
    let two = with_guardian(one, guardians[1]);
    lemma_with_guardian(none, guardians[0]);
    lemma_with_guardian(one, guardians[1]);
    lemma_with_guardian(two, guardians[2]);
    let hot = fresh_wallet(hot_wallet, WalletType::Hot);
    let cold = fresh_wallet(cold_wallet, WalletType::Cold);
    let first = with_wallet(s.wallets, hot);
    lemma_with_wallet(s.wallets, hot);
    lemma_with_wallet(first, cold);
    assert forall|j: int| 0 <= j < after.wallets.len() implies (#[trigger] after.wallets[j]).reserved_balance
        == reserved_total(after.transactions, after.wallets[j].address@) by {}
}

/// Storing a new transfer and earmarking its amount keeps the invariant.
pub proof fn lemma_created_wf(
    s: CustodyState,
    from_wallet: Address,
    to_address: Address,
    amount: i128,
    memo: String,
    tx_type: TxType,
    needs_approval: bool,
    now: u64,
)
    requires
        s.wf(),
        s.initialized,
        amount > 0,
        has_wallet(s.wallets, from_wallet@),
        s.transaction_counter < u64::MAX,
        s.wallet(from_wallet@).reserved_balance + amount <= i128::MAX,
    ensures
        s.created(from_wallet, to_address, amount, memo, tx_type, needs_approval, now).wf(),
        s.created(
            from_wallet,
            to_address,
            amount,
            memo,
            tx_type,
            needs_approval,
            now,
        ).has_transaction((s.transaction_counter + 1) as u64),
        s.created(from_wallet, to_address, amount, memo, tx_type, needs_approval, now).transaction(
            (s.transaction_counter + 1) as u64,
        ) == new_transaction(
            (s.transaction_counter + 1) as u64,
            from_wallet,
            to_address,
            amount,
            memo,
            tx_type,
            needs_approval,
            now,
        ),
        has_wallet(
            s.created(from_wallet, to_address, amount, memo, tx_type, needs_approval, now).wallets,
            from_wallet@,
        ),
        s.created(from_wallet, to_address, amount, memo, tx_type, needs_approval, now).wallet(
            from_wallet@,
        ) == reserved(s.wallet(from_wallet@), amount),
{
    let after = s.created(from_wallet, to_address, amount, memo, tx_type, needs_approval, now);
    let id = (s.transaction_counter + 1) as u64;
    let tx = new_transaction(
        id,
        from_wallet,
        to_address,
        amount,
        memo,
        tx_type,
        needs_approval,
        now,
    );
    let w = wallet_index(s.wallets, from_wallet@);
    let earmarked = reserved(s.wallets[w], amount);
    lemma_wallet_update(s.wallets, w, earmarked);
    assert forall|i: int| 0 <= i < s.transactions.len() implies (#[trigger] s.transactions[i]).amount
        > 0 by {
        assert(s.sound_transaction(i));
    }
    lemma_reserved_total_bounds(s.transactions, from_wallet@);
    assert forall|i: int| 0 <= i < after.transactions.len() implies #[trigger] after.sound_transaction(
        i,
    ) by {
        if i < s.transactions.len() {
            assert(s.sound_transaction(i));
        }
    }
    assert forall|j: int| 0 <= j < after.wallets.len() implies (#[trigger] after.wallets[j]).reserved_balance
        == reserved_total(after.transactions, after.wallets[j].address@) by {
        lemma_reserved_total_push(s.transactions, tx, after.wallets[j].address@);
    }
}

/// Executing an open transfer keeps the invariant.
pub proof fn lemma_executed_wf(s: CustodyState, tx_id: u64, now: u64)
    requires
        s.wf(),
        s.initialized,
        s.has_transaction(tx_id),
        s.transaction(tx_id).is_open(),
    ensures
        s.executed(tx_id, now).wf(),
        s.executed(tx_id, now).has_transaction(tx_id),
        has_wallet(s.executed(tx_id, now).wallets, s.transaction(tx_id).from_wallet@),
        s.executed(tx_id, now).wallet(s.transaction(tx_id).from_wallet@) == settled(
            s.wallet(s.transaction(tx_id).from_wallet@),
            s.transaction(tx_id).amount,
        ),
        s.wallet(s.transaction(tx_id).from_wallet@).reserved_balance - s.transaction(tx_id).amount
            >= 0,
{
    let after = s.executed(tx_id, now);
    let tx = s.transaction(tx_id);
    let done = TransactionView { status: TxStatus::Executed, executed_at: Some(now), ..tx };
    let party = tx.from_wallet@;
    lemma_reserved_covers_open(s, tx_id);
    let w = wallet_index(s.wallets, party);
    let paid = settled(s.wallets[w], tx.amount);
    lemma_wallet_update(s.wallets, w, paid);
    assert forall|i: int| 0 <= i < after.transactions.len() implies #[trigger] after.sound_transaction(
        i,
    ) by {
        assert(s.sound_transaction(i));
    }
    assert forall|j: int| 0 <= j < after.wallets.len() implies (#[trigger] after.wallets[j]).reserved_balance
        == reserved_total(after.transactions, after.wallets[j].address@) by {
        lemma_reserved_total_update(s.transactions, tx_id - 1, done, after.wallets[j].address@);
    }
}

/// Adding a guardian's first approval to a transfer keeps the invariant.
pub proof fn lemma_approved_wf(s: CustodyState, guardian: Address, tx_id: u64, now: u64)
    requires
        s.wf(),
        s.initialized,
        has_guardian(s.guardians, guardian@),
        s.has_transaction(tx_id),
        !lists_address(s.transaction(tx_id).approvals, guardian@),
    ensures
        s.approved(guardian, tx_id, now).wf(),
        s.approved(guardian, tx_id, now).has_transaction(tx_id),
        s.approved(guardian, tx_id, now).wallets == s.wallets,
        has_guardian(s.approved(guardian, tx_id, now).guardians, guardian@),
        s.approved(guardian, tx_id, now).guardian(guardian@) == approval_recorded(
            s.guardian(guardian@),
            now,
        ),
{
    let after = s.approved(guardian, tx_id, now);
    let tx = s.transaction(tx_id);
    let signed = TransactionView { approvals: tx.approvals.push(guardian), ..tx };
    let g = guardian_index(s.guardians, guardian@);
    lemma_guardian_update(s.guardians, g, approval_recorded(s.guardians[g], now));
    assert(s.sound_transaction(tx_id - 1));
    assert forall|a: int, b: int| 0 <= a < b < signed.approvals.len() implies (
    #[trigger] signed.approvals[a])@ != (#[trigger] signed.approvals[b])@ by {}
    assert forall|i: int| 0 <= i < after.transactions.len() implies #[trigger] after.sound_transaction(
        i,
    ) by {
        assert(s.sound_transaction(i));
    }
    assert forall|j: int| 0 <= j < after.wallets.len() implies (#[trigger] after.wallets[j]).reserved_balance
        == reserved_total(after.transactions, after.wallets[j].address@) by {
        lemma_reserved_total_update(s.transactions, tx_id - 1, signed, after.wallets[j].address@);
    }
}

/// Throwing the emergency switch keeps the invariant.
pub proof fn lemma_shut_down_wf(s: CustodyState, guardian: Address)
    requires
        s.wf(),
    ensures
        s.shut_down(guardian).wf(),
{
    let after = s.shut_down(guardian);
    assert forall|i: int| 0 <= i < after.transactions.len() implies #[trigger] after.sound_transaction(
        i,
    ) by {
        assert(s.sound_transaction(i));
    }
}

} // verus!
