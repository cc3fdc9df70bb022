//! What holds of the engine across its operations.

use crate::ledger::{
    has_wallet, lemma_reserved_total_bounds, lemma_wallet_index_unique, lemma_with_wallet,
    with_wallet,
};
use crate::model::{fresh_wallet, CustodyState, Request};
use crate::preservation::{
    lemma_approved_wf, lemma_created_wf, lemma_executed_wf, lemma_initialized_wf,
    lemma_reserved_covers_open, lemma_shut_down_wf,
};
use crate::registry::{
    approval_recorded, distinct_guardians, guardian_index, has_guardian,
    lemma_guardian_index_unique, lemma_guardian_update, lemma_with_guardian, with_guardian,
};
use crate::spending::{day_of, exceeds, month_of, spent_in};
use crate::types::{
    Address, CustodyError, Guardian, SystemLimits, TxStatus, TxType, WalletType,
};
use vstd::prelude::*;

verus! {

/// After an accepted initialisation with three guardians of different
/// addresses and a hot and a cold wallet of different addresses, exactly
/// those three guardians are on record and the ledger holds exactly two
/// wallets, the hot one and the cold one, both empty. The engine is
/// initialised, so that every further initialisation is turned down with
/// `AlreadyInitialized`.
pub proof fn law_initialize_once(
    s: CustodyState,
    guardians: Seq<Guardian>,
    hot_wallet: Address,
    cold_wallet: Address,
    limits: SystemLimits,
    more_guardians: Seq<Guardian>,
    more_limits: SystemLimits,
)
    requires
        s.wf(),
        s.initialize_check(guardians, limits) is Ok,
        distinct_guardians(guardians),
        hot_wallet@ != cold_wallet@,
    ensures
        ({
            let after = s.initialized_with(guardians, hot_wallet, cold_wallet, limits);
            &&& after.wf()
            &&& after.guardians == guardians
            &&& after.guardians.len() == 3
            &&& forall|k: int|
                0 <= k < 3 ==> has_guardian(after.guardians, (#[trigger] guardians[k]).address@)
                    && after.guardian(guardians[k].address@) == guardians[k]
            &&& after.wallets.len() == 2
            &&& after.wallets[0] == fresh_wallet(hot_wallet, WalletType::Hot)
            &&& after.wallets[1] == fresh_wallet(cold_wallet, WalletType::Cold)
            &&& after.wallet(hot_wallet@) == fresh_wallet(hot_wallet, WalletType::Hot)
            &&& after.wallet(cold_wallet@) == fresh_wallet(cold_wallet, WalletType::Cold)
            &&& after.initialize_check(more_guardians, more_limits) == Err::<(), CustodyError>(
                CustodyError::AlreadyInitialized,
            )
        }),
{
    let after = s.initialized_with(guardians, hot_wallet, cold_wallet, limits);
    lemma_initialized_wf(s, guardians, hot_wallet, cold_wallet, limits);
    let none = Seq::<Guardian>::empty();
    let one = with_guardian(none, guardians[0]);
    let two = with_guardian(one, guardians[1]);
    lemma_with_guardian(none, guardians[0]);
    lemma_with_guardian(one, guardians[1]);
    lemma_with_guardian(two, guardians[2]);
    assert forall|k: int| 0 <= k < 3 implies has_guardian(
        after.guardians,
        (#[trigger] guardians[k]).address@,
    ) && after.guardian(guardians[k].address@) == guardians[k] by {
        lemma_guardian_index_unique(after.guardians, guardians[k].address@, k);
    }
    let hot = fresh_wallet(hot_wallet, WalletType::Hot);
    let cold = fresh_wallet(cold_wallet, WalletType::Cold);
    let first = with_wallet(s.wallets, hot);
    lemma_with_wallet(s.wallets, hot);
    lemma_with_wallet(first, cold);
    lemma_wallet_index_unique(after.wallets, hot_wallet@, 0);
    lemma_wallet_index_unique(after.wallets, cold_wallet@, 1);
}

/// In every state that meets the invariant, the funds earmarked in a wallet
/// are not negative.
pub proof fn law_reserved_not_negative(s: CustodyState, j: int)
    requires
        s.wf(),
        0 <= j < s.wallets.len(),
    ensures
        s.wallets[j].reserved_balance >= 0,
{
    assert forall|i: int| 0 <= i < s.transactions.len() implies (#[trigger] s.transactions[i]).amount
        > 0 by {
        assert(s.sound_transaction(i));
    }
    lemma_reserved_total_bounds(s.transactions, s.wallets[j].address@);
}

/// Creating a transfer keeps the earmarked funds of every wallet covered by
/// its balance, provided that the amount is covered by what the source
/// wallet holds beyond the funds that are earmarked already.
pub proof fn law_create_keeps_cover(
    s: CustodyState,
    from_wallet: Address,
    to_address: Address,
    amount: i128,
    memo: String,
    tx_type: TxType,
    now: u64,
)
    requires
        s.wf(),
        s.all_covered(),
        s.create_fits(from_wallet@, amount, now),
        s.create_check(from_wallet@, amount, now) is Ok ==> amount <= s.wallet(
            from_wallet@,
        ).balance - s.wallet(from_wallet@).reserved_balance,
    ensures
        s.create_next(from_wallet, to_address, amount, memo, tx_type, now).all_covered(),
{
    let after = s.create_next(from_wallet, to_address, amount, memo, tx_type, now);
    match s.create_check(from_wallet@, amount, now) {
        Ok(needs_approval) => {
            let stored = s.created(
                from_wallet,
                to_address,
                amount,
                memo,
                tx_type,
                needs_approval,
                now,
            );
            lemma_created_wf(
                s,
                from_wallet,
                to_address,
                amount,
                memo,
                tx_type,
                needs_approval,
                now,
            );
            assert forall|j: int| 0 <= j < stored.wallets.len() implies (
            #[trigger] stored.wallets[j]).covered() by {}
            if !needs_approval {
                let tx_id = stored.transaction_counter;
                lemma_executed_wf(stored, tx_id, now);
                assert forall|j: int| 0 <= j < after.wallets.len() implies (
                #[trigger] after.wallets[j]).covered() by {}
            }
        },
        Err(_) => {},
    }
}

/// An approval keeps the earmarked funds of every wallet covered by its
/// balance, whether or not it leads to the execution of the transfer.
pub proof fn law_approve_keeps_cover(
    s: CustodyState,
    guardian: Address,
    tx_id: u64,
    authorized: bool,
    now: u64,
)
    requires
        s.wf(),
        s.all_covered(),
    ensures
        s.approve_next(guardian, tx_id, authorized, now).all_covered(),
{
    let after = s.approve_next(guardian, tx_id, authorized, now);
    match s.approve_check(guardian@, tx_id, authorized) {
        Ok(quorum) => {
            let noted = s.approved(guardian, tx_id, now);
            lemma_approved_wf(s, guardian, tx_id, now);
            if quorum {
                lemma_executed_wf(noted, tx_id, now);
                lemma_reserved_covers_open(noted, tx_id);
                assert forall|j: int| 0 <= j < after.wallets.len() implies (
                #[trigger] after.wallets[j]).covered() by {}
            }
        },
        Err(_) => {},
    }
}

/// A guardian who approved a transfer cannot approve it again: the second
/// approval, at whatever time, is turned down with `DuplicateApproval` and
/// leaves the state as it was.
pub proof fn law_duplicate_approval(
    s: CustodyState,
    guardian: Address,
    again: Address,
    tx_id: u64,
    now: u64,
    later: u64,
)
    requires
        s.wf(),
        s.approve_check(guardian@, tx_id, true) is Ok,
        again@ == guardian@,
    ensures
        ({
            let after = s.approve_next(guardian, tx_id, true, now);
            &&& after.has_approved(guardian@, tx_id)
            &&& after.approve_check(again@, tx_id, true) == Err::<bool, CustodyError>(
                CustodyError::DuplicateApproval,
            )
            &&& after.approve_next(again, tx_id, true, later) == after
        }),
{
    let noted = s.approved(guardian, tx_id, now);
    lemma_approved_wf(s, guardian, tx_id, now);
    let signed = noted.transaction(tx_id);
    let last = s.transaction(tx_id).approvals.len() as int;
    assert(signed.approvals[last]@ == guardian@);
    if s.approve_check(guardian@, tx_id, true) == Ok::<bool, CustodyError>(true) {
        lemma_executed_wf(noted, tx_id, now);
    }
}

/// Every request leaves a guardian's approval of a transfer in place, and
/// the guardian on record and active.
pub proof fn law_step_keeps_approval(
    s: CustodyState,
    request: Request,
    guardian: Seq<char>,
    tx_id: u64,
)
    requires
        s.wf(),
        s.step_fits(request),
        s.has_approved(guardian, tx_id),
    ensures
        s.step(request).has_approved(guardian, tx_id),
{
    let k = choose|k: int|
        0 <= k < s.transaction(tx_id).approvals.len() && (
        #[trigger] s.transaction(tx_id).approvals[k])@ == guardian;
    match request {
        Request::Approve { guardian: approver, tx_id: approved_id, authorized, now } => {
            if s.approve_check(approver@, approved_id, authorized) is Ok {
                let noted = s.approved(approver, approved_id, now);
                let a = guardian_index(s.guardians, approver@);
                lemma_guardian_update(s.guardians, a, approval_recorded(s.guardians[a], now));
                assert(noted.transaction(tx_id).approvals[k]@ == guardian);
            }
        },
        _ => {},
    }
}

/// Once a guardian approved a transfer, every later approval of it by that
/// guardian is turned down, whatever requests came in between: with
/// `EmergencyActive` if the emergency switch was thrown, and with
/// `DuplicateApproval` otherwise. It changes nothing.
pub proof fn law_approval_is_final(
    s: CustodyState,
    requests: Seq<Request>,
    guardian: Address,
    tx_id: u64,
    now: u64,
)
    requires
        s.wf(),
        s.run_fits(requests),
        s.has_approved(guardian@, tx_id),
    ensures
        ({
            let later = s.run(requests);
            &&& later.has_approved(guardian@, tx_id)
            &&& later.approve_check(guardian@, tx_id, true) == Err::<bool, CustodyError>(
                if later.emergency_mode {
                    CustodyError::EmergencyActive
                } else {
                    CustodyError::DuplicateApproval
                },
            )
            &&& later.approve_next(guardian, tx_id, true, now) == later
        }),
    decreases requests.len(),
{
    if requests.len() > 0 {
        law_run_keeps_invariant(s, requests.drop_last());
        law_approval_is_final(s, requests.drop_last(), guardian, tx_id, now);
        law_step_keeps_approval(s.run(requests.drop_last()), requests.last(), guardian@, tx_id);
    }
}

/// With a quorum of two, a transfer without approvals is still awaiting
/// approval after the first guardian's approval, and is executed by the
/// approval of a second guardian. The second guardian is another one than
/// the first, and no third approval is asked for.
pub proof fn law_quorum_of_two(
    s: CustodyState,
    first: Address,
    second: Address,
    tx_id: u64,
    now: u64,
    later: u64,
)
    requires
        s.wf(),
        s.initialized,
        s.limits().required_approvals == 2,
        s.has_transaction(tx_id),
        s.transaction(tx_id).approvals.len() == 0,
        s.approve_check(first@, tx_id, true) is Ok,
        s.approve_next(first, tx_id, true, now).approve_check(second@, tx_id, true) is Ok,
    ensures
        ({
            let one = s.approve_next(first, tx_id, true, now);
            let two = one.approve_next(second, tx_id, true, later);
            &&& s.approve_check(first@, tx_id, true) == Ok::<bool, CustodyError>(false)
            &&& one.transaction(tx_id).status == TxStatus::AwaitingApproval
            &&& one.transaction(tx_id).executed_at == s.transaction(tx_id).executed_at
            &&& second@ != first@
            &&& one.approve_check(second@, tx_id, true) == Ok::<bool, CustodyError>(true)
            &&& two.transaction(tx_id).status == TxStatus::Executed
            &&& two.transaction(tx_id).executed_at == Some(later)
        }),
{
    let one = s.approve_next(first, tx_id, true, now);
    lemma_approved_wf(s, first, tx_id, now);
    let signed = one.transaction(tx_id);
    assert(signed.approvals[0]@ == first@);
    lemma_approved_wf(one, second, tx_id, later);
    let noted = one.approved(second, tx_id, later);
    lemma_executed_wf(noted, tx_id, later);
}

/// An accepted approval leaves the transfer executed exactly when it
/// completes the quorum, which it does exactly when the approvals, this one
/// included, are as many as the limits require. Otherwise the transfer goes
/// on awaiting approval.
pub proof fn law_executed_at_quorum(s: CustodyState, guardian: Address, tx_id: u64, now: u64)
    requires
        s.wf(),
        s.approve_check(guardian@, tx_id, true) is Ok,
    ensures
        ({
            let after = s.approve_next(guardian, tx_id, true, now);
            let quorum = s.transaction(tx_id).approvals.len() + 1
                >= s.limits().required_approvals;
            &&& s.approve_check(guardian@, tx_id, true) == Ok::<bool, CustodyError>(quorum)
            &&& after.transaction(tx_id).approvals == s.transaction(tx_id).approvals.push(
                guardian,
            )
            &&& quorum ==> after.transaction(tx_id).status == TxStatus::Executed
            &&& !quorum ==> after.transaction(tx_id).status == TxStatus::AwaitingApproval
        }),
{
    let noted = s.approved(guardian, tx_id, now);
    lemma_approved_wf(s, guardian, tx_id, now);
    lemma_executed_wf(noted, tx_id, now);
}

/// A transfer that needs approval is held against the daily limit at its
/// very edge: it passes where the day's spending and the amount together
/// are at most the limit, and is turned down with `LimitExceeded` from one
/// unit above the limit on.
pub proof fn law_daily_limit_boundary(s: CustodyState, from_wallet: Seq<char>, amount: i128, now: u64)
    requires
        s.initialized,
        !s.emergency_mode,
        amount > 0,
        has_wallet(s.wallets, from_wallet),
        s.wallet(from_wallet).balance >= amount,
        s.needs_approval(s.wallet(from_wallet), amount),
        !exceeds(spent_in(s.monthly_spent, month_of(now)), amount, s.limits().monthly_limit),
    ensures
        spent_in(s.daily_spent, day_of(now)) + amount <= s.limits().daily_limit ==> s.create_check(
            from_wallet,
            amount,
            now,
        ) == Ok::<bool, CustodyError>(true),
        spent_in(s.daily_spent, day_of(now)) + amount == s.limits().daily_limit ==> s.create_check(
            from_wallet,
            amount,
            now,
        ) == Ok::<bool, CustodyError>(true),
        spent_in(s.daily_spent, day_of(now)) + amount >= s.limits().daily_limit + 1
            ==> s.create_check(from_wallet, amount, now) == Err::<bool, CustodyError>(
            CustodyError::LimitExceeded,
        ),
{
}

/// Once an emergency shutdown was accepted, every request to create a
/// transfer and every authorized approval is turned down with
/// `EmergencyActive`, whoever asks and whatever is asked for, and an approval
/// that is not authorized is turned down as such.
pub proof fn law_emergency_blocks(
    s: CustodyState,
    initiator: Address,
    from_wallet: Seq<char>,
    amount: i128,
    guardian: Seq<char>,
    tx_id: u64,
    authorized: bool,
    now: u64,
)
    requires
        s.shutdown_check(initiator@, true) is Ok,
    ensures
        ({
            let after = s.shut_down(initiator);
            &&& after.emergency_mode
            &&& after.emergency_initiator == Some(initiator)
            &&& after.create_check(from_wallet, amount, now) == Err::<bool, CustodyError>(
                CustodyError::EmergencyActive,
            )
            &&& authorized ==> after.approve_check(guardian, tx_id, authorized) == Err::<
                bool,
                CustodyError,
            >(CustodyError::EmergencyActive)
            &&& !authorized ==> after.approve_check(guardian, tx_id, authorized) == Err::<
                bool,
                CustodyError,
            >(CustodyError::Unauthorized)
        }),
{
}

/// Every request keeps the invariant of the state, provided that its sums
/// stay in the range of the machine integers.
pub proof fn law_step_keeps_invariant(s: CustodyState, request: Request)
    requires
        s.wf(),
        s.step_fits(request),
    ensures
        s.step(request).wf(),
{
    match request {
        Request::Initialize { guardians, hot_wallet, cold_wallet, limits } => {
            if s.initialize_check(guardians, limits) is Ok {
                lemma_initialized_wf(s, guardians, hot_wallet, cold_wallet, limits);
            }
        },
        Request::Create { from_wallet, to_address, amount, memo, tx_type, now } => {
            match s.create_check(from_wallet@, amount, now) {
                Ok(needs_approval) => {
                    lemma_created_wf(
                        s,
                        from_wallet,
                        to_address,
                        amount,
                        memo,
                        tx_type,
                        needs_approval,
                        now,
                    );
                    if !needs_approval {
                        let stored = s.created(
                            from_wallet,
                            to_address,
                            amount,
                            memo,
                            tx_type,
                            needs_approval,
                            now,
                        );
                        lemma_executed_wf(stored, stored.transaction_counter, now);
                    }
                },
                Err(_) => {},
            }
        },
        Request::Approve { guardian, tx_id, authorized, now } => {
            match s.approve_check(guardian@, tx_id, authorized) {
                Ok(quorum) => {
                    lemma_approved_wf(s, guardian, tx_id, now);
                    if quorum {
                        lemma_executed_wf(s.approved(guardian, tx_id, now), tx_id, now);
                    }
                },
                Err(_) => {},
            }
        },
        Request::Shutdown { guardian, authorized } => {
            if s.shutdown_check(guardian@, authorized) is Ok {
                lemma_shut_down_wf(s, guardian);
            }
        },
    }
}

/// Whatever requests an engine takes, one after the other, its state meets
/// the invariant after them, and so the funds earmarked in each wallet are
/// not negative.
pub proof fn law_run_keeps_invariant(s: CustodyState, requests: Seq<Request>)
    requires
        s.wf(),
        s.run_fits(requests),
    ensures
        s.run(requests).wf(),
        forall|j: int|
            0 <= j < s.run(requests).wallets.len() ==> (
            #[trigger] s.run(requests).wallets[j]).reserved_balance >= 0,
    decreases requests.len(),
{
    if requests.len() > 0 {
        law_run_keeps_invariant(s, requests.drop_last());
        law_step_keeps_invariant(s.run(requests.drop_last()), requests.last());
    }
    let after = s.run(requests);
    assert forall|j: int| 0 <= j < after.wallets.len() implies (
    #[trigger] after.wallets[j]).reserved_balance >= 0 by {
        law_reserved_not_negative(after, j);
    }
}

/// Every request keeps the earmarked funds of every wallet covered by its
/// balance, provided that a transfer is created only for an amount that the
/// source wallet holds beyond the funds that are earmarked already.
pub proof fn law_step_keeps_cover(s: CustodyState, request: Request)
    requires
        s.wf(),
        s.all_covered(),
        s.step_fits(request),
        s.step_covered(request),
    ensures
        s.step(request).all_covered(),
{
    match request {
        Request::Initialize { guardians, hot_wallet, cold_wallet, limits } => {
            if s.initialize_check(guardians, limits) is Ok {
                let hot = fresh_wallet(hot_wallet, WalletType::Hot);
                let cold = fresh_wallet(cold_wallet, WalletType::Cold);
                let first = with_wallet(s.wallets, hot);
                lemma_with_wallet(s.wallets, hot);
                lemma_with_wallet(first, cold);
                let after = s.step(request);
                assert forall|j: int| 0 <= j < after.wallets.len() implies (
                #[trigger] after.wallets[j]).covered() by {}
            }
        },
        Request::Create { from_wallet, to_address, amount, memo, tx_type, now } => {
            law_create_keeps_cover(s, from_wallet, to_address, amount, memo, tx_type, now);
        },
        Request::Approve { guardian, tx_id, authorized, now } => {
            law_approve_keeps_cover(s, guardian, tx_id, authorized, now);
        },
        Request::Shutdown { guardian, authorized } => {},
    }
}

/// Whatever requests an engine takes, one after the other, the earmarked
/// funds of every wallet stay covered by its balance, provided that each
/// transfer is created only for an amount that the source wallet then holds
/// beyond the funds that are earmarked already.
pub proof fn law_run_keeps_cover(s: CustodyState, requests: Seq<Request>)
    requires
        s.wf(),
        s.all_covered(),
        s.run_fits(requests),
        s.run_covered(requests),
    ensures
        s.run(requests).all_covered(),
    decreases requests.len(),
{
    if requests.len() > 0 {
        law_run_keeps_invariant(s, requests.drop_last());
        law_run_keeps_cover(s, requests.drop_last());
        law_step_keeps_cover(s.run(requests.drop_last()), requests.last());
    }
}

/// Every request leaves each transfer either awaiting approval or executed:
/// a transfer that needs no approval is executed within the request that
/// creates it, one that needs approval within the request that completes
/// the quorum, and nothing leaves a transfer pending, approved, failed or
/// cancelled.
pub proof fn law_step_leaves_at_rest(s: CustodyState, request: Request)
    requires
        s.wf(),
        s.at_rest(),
        s.step_fits(request),
    ensures
        s.step(request).at_rest(),
{
    match request {
        Request::Create { from_wallet, to_address, amount, memo, tx_type, now } => {
            match s.create_check(from_wallet@, amount, now) {
                Ok(needs_approval) => {
                    let stored = s.created(
                        from_wallet,
                        to_address,
                        amount,
                        memo,
                        tx_type,
                        needs_approval,
                        now,
                    );
                    assert forall|i: int| 0 <= i < s.transactions.len() implies (
                    #[trigger] stored.transactions[i]) == s.transactions[i] by {}
                },
                Err(_) => {},
            }
        },
        Request::Approve { guardian, tx_id, authorized, now } => {
            match s.approve_check(guardian@, tx_id, authorized) {
                Ok(quorum) => {
                    let noted = s.approved(guardian, tx_id, now);
                    assert forall|i: int|
                        0 <= i < s.transactions.len() && i != tx_id - 1 implies (
                    #[trigger] noted.transactions[i]) == s.transactions[i] by {}
                },
                Err(_) => {},
            }
        },
        _ => {},
    }
}

/// Whatever requests an engine takes from its start, one after the other,
/// each transfer is afterwards either awaiting approval or executed.
pub proof fn law_run_leaves_at_rest(s: CustodyState, requests: Seq<Request>)
    requires
        s.wf(),
        s.at_rest(),
        s.run_fits(requests),
    ensures
        s.run(requests).at_rest(),
    decreases requests.len(),
{
    if requests.len() > 0 {
        law_run_keeps_invariant(s, requests.drop_last());
        law_run_leaves_at_rest(s, requests.drop_last());
        law_step_leaves_at_rest(s.run(requests.drop_last()), requests.last());
    }
}

/// No request turns the emergency switch off or undoes the initialisation:
/// in an initialised engine whose switch is on, a request to initialise, to
/// create or to approve changes nothing, and a further shutdown leaves the
/// switch on.
pub proof fn law_emergency_stays(s: CustodyState, request: Request)
    requires
        s.initialized,
        s.emergency_mode,
    ensures
        s.step(request).initialized,
        s.step(request).emergency_mode,
        !(request is Shutdown) ==> s.step(request) == s,
{
}

/// Once an emergency shutdown was accepted, the switch is on after whatever
/// requests follow, and so every later request to create a transfer and
/// every later authorized approval is turned down with `EmergencyActive`,
/// whoever asks and whatever is asked for.
pub proof fn law_emergency_is_final(
    s: CustodyState,
    initiator: Address,
    requests: Seq<Request>,
    from_wallet: Seq<char>,
    amount: i128,
    guardian: Seq<char>,
    tx_id: u64,
    now: u64,
)
    requires
        s.shutdown_check(initiator@, true) is Ok,
    ensures
        ({
            let later = s.shutdown_next(initiator, true).run(requests);
            &&& later.initialized
            &&& later.emergency_mode
            &&& later.create_check(from_wallet, amount, now) == Err::<bool, CustodyError>(
                CustodyError::EmergencyActive,
            )
            &&& later.approve_check(guardian, tx_id, true) == Err::<bool, CustodyError>(
                CustodyError::EmergencyActive,
            )
        }),
    decreases requests.len(),
{
    if requests.len() > 0 {
        law_emergency_is_final(
            s,
            initiator,
            requests.drop_last(),
            from_wallet,
            amount,
            guardian,
            tx_id,
            now,
        );
        law_emergency_stays(
            s.shutdown_next(initiator, true).run(requests.drop_last()),
            requests.last(),
        );
    }
}

/// An engine that was initialised stays so after whatever requests follow,
/// and so every later initialisation is turned down with
/// `AlreadyInitialized` and changes nothing.
pub proof fn law_initialized_is_final(
    s: CustodyState,
    requests: Seq<Request>,
    guardians: Seq<Guardian>,
    hot_wallet: Address,
    cold_wallet: Address,
    limits: SystemLimits,
)
    requires
        s.initialized,
    ensures
        ({
            let later = s.run(requests);
            &&& later.initialized
            &&& later.initialize_check(guardians, limits) == Err::<(), CustodyError>(
                CustodyError::AlreadyInitialized,
            )
            &&& later.initialize_next(guardians, hot_wallet, cold_wallet, limits) == later
        }),
    decreases requests.len(),
{
    if requests.len() > 0 {
        law_initialized_is_final(
            s,
            requests.drop_last(),
            guardians,
            hot_wallet,
            cold_wallet,
            limits,
        );
    }
}

} // verus!
