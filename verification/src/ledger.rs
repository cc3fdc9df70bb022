//! The wallet ledger: what each wallet holds and how much of it is earmarked
//! for transfers that were created and not yet executed.

use crate::types::{
    transaction_views, Address, CustodyError, Transaction, TransactionView, TxStatus, WalletInfo,
};
use vstd::prelude::*;

verus! {

/// Whether a wallet with this address is on the ledger.
pub open spec fn has_wallet(wallets: Seq<WalletInfo>, party: Seq<char>) -> bool {
    exists|i: int| 0 <= i < wallets.len() && (#[trigger] wallets[i]).address@ == party
}

/// Where the wallet with this address stands on the ledger, if it is there.
pub open spec fn wallet_index(wallets: Seq<WalletInfo>, party: Seq<char>) -> int {
    choose|i: int| 0 <= i < wallets.len() && (#[trigger] wallets[i]).address@ == party
}

/// Whether no address is on the ledger twice.
pub open spec fn distinct_wallets(wallets: Seq<WalletInfo>) -> bool {
    forall|i: int, j: int|
        0 <= i < j < wallets.len() ==> (#[trigger] wallets[i]).address@ != (
        #[trigger] wallets[j]).address@
}

/// The ledger after a wallet was written: an entry with the same address is
/// replaced, a new address is added at the end.
pub open spec fn with_wallet(wallets: Seq<WalletInfo>, wallet: WalletInfo) -> Seq<WalletInfo> {
    if has_wallet(wallets, wallet.address@) {
        wallets.update(wallet_index(wallets, wallet.address@), wallet)
    } else {
        wallets.push(wallet)
    }
}

/// A wallet after `amount` more was earmarked. The balance stays.
pub open spec fn reserved(wallet: WalletInfo, amount: i128) -> WalletInfo {
    WalletInfo { reserved_balance: (wallet.reserved_balance + amount) as i128, ..wallet }
}

/// A wallet after an earmarked `amount` has left it: both the balance and
/// the earmarked funds go down by `amount`.
pub open spec fn settled(wallet: WalletInfo, amount: i128) -> WalletInfo {
    WalletInfo {
        balance: (wallet.balance - amount) as i128,
        reserved_balance: (wallet.reserved_balance - amount) as i128,
        ..wallet
    }
}

/// What one transfer keeps earmarked in the wallet of `party`.
pub open spec fn earmark(tx: TransactionView, party: Seq<char>) -> int {
    if tx.is_open() && tx.from_wallet@ == party {
        tx.amount as int
    } else {
        0
    }
}

/// What all transfers together keep earmarked in the wallet of `party`.
pub open spec fn reserved_total(txs: Seq<TransactionView>, party: Seq<char>) -> int
    decreases txs.len(),
{
    if txs.len() == 0 {
        0
    } else {
        reserved_total(txs.drop_last(), party) + earmark(txs.last(), party)
    }
}

/// On a ledger without repeated addresses, an entry with a given address is
/// the one that `wallet_index` names.
pub proof fn lemma_wallet_index_unique(wallets: Seq<WalletInfo>, party: Seq<char>, i: int)
    requires
        distinct_wallets(wallets),
        0 <= i < wallets.len(),
        wallets[i].address@ == party,
    ensures
        has_wallet(wallets, party),
        wallet_index(wallets, party) == i,
{
    let j = wallet_index(wallets, party);
    assert(j == i);
}

/// Writing a wallet keeps the addresses distinct and makes the wallet the
/// entry for its address.
pub proof fn lemma_with_wallet(wallets: Seq<WalletInfo>, wallet: WalletInfo)
    requires
        distinct_wallets(wallets),
    ensures
        distinct_wallets(with_wallet(wallets, wallet)),
        has_wallet(with_wallet(wallets, wallet), wallet.address@),
        with_wallet(wallets, wallet)[wallet_index(with_wallet(wallets, wallet), wallet.address@)]
            == wallet,
        with_wallet(wallets, wallet).len() == if has_wallet(wallets, wallet.address@) {
            wallets.len()
        } else {
            wallets.len() + 1
        },
        forall|k: int|
            0 <= k < with_wallet(wallets, wallet).len() ==> {
                ||| (#[trigger] with_wallet(wallets, wallet)[k]) == wallet
                ||| k < wallets.len() && with_wallet(wallets, wallet)[k] == wallets[k]
            },
{
    let after = with_wallet(wallets, wallet);
    let k = if has_wallet(wallets, wallet.address@) {
        wallet_index(wallets, wallet.address@)
    } else {
        wallets.len() as int
    };
    assert forall|i: int, j: int| 0 <= i < j < after.len() implies (#[trigger] after[i]).address@
        != (#[trigger] after[j]).address@ by {}
    lemma_wallet_index_unique(after, wallet.address@, k);
}

/// Rewriting an entry under its own address keeps the addresses distinct and
/// leaves every address where it was.
pub proof fn lemma_wallet_update(wallets: Seq<WalletInfo>, i: int, wallet: WalletInfo)
    requires
        distinct_wallets(wallets),
        0 <= i < wallets.len(),
        wallet.address@ == wallets[i].address@,
    ensures
        distinct_wallets(wallets.update(i, wallet)),
        forall|party: Seq<char>| #[trigger]
            has_wallet(wallets.update(i, wallet), party) == has_wallet(wallets, party),
        forall|party: Seq<char>|
            has_wallet(wallets, party) ==> #[trigger] wallet_index(wallets.update(i, wallet), party)
                == wallet_index(wallets, party),
{
    let after = wallets.update(i, wallet);
    assert forall|a: int, b: int| 0 <= a < b < after.len() implies (#[trigger] after[a]).address@
        != (#[trigger] after[b]).address@ by {}
    assert forall|party: Seq<char>| #[trigger]
        has_wallet(after, party) == has_wallet(wallets, party) by {
        if has_wallet(wallets, party) {
            let k = wallet_index(wallets, party);
            assert(after[k].address@ == party);
        }
        if has_wallet(after, party) {
            let k = wallet_index(after, party);
            assert(wallets[k].address@ == party);
        }
    }
    assert forall|party: Seq<char>| has_wallet(wallets, party) implies #[trigger] wallet_index(
        after,
        party,
    ) == wallet_index(wallets, party) by {
        lemma_wallet_index_unique(after, party, wallet_index(wallets, party));
    }
}

/// A new transfer adds its earmark to the total.
pub proof fn lemma_reserved_total_push(
    txs: Seq<TransactionView>,
    tx: TransactionView,
    party: Seq<char>,
)
    ensures
        reserved_total(txs.push(tx), party) == reserved_total(txs, party) + earmark(tx, party),
{
    assert(txs.push(tx).drop_last() =~= txs);
}

/// Rewriting one transfer changes the total by the difference of its
/// earmarks.
pub proof fn lemma_reserved_total_update(
    txs: Seq<TransactionView>,
    i: int,
    tx: TransactionView,
    party: Seq<char>,
)
    requires
        0 <= i < txs.len(),
    ensures
        reserved_total(txs.update(i, tx), party) == reserved_total(txs, party) - earmark(
            txs[i],
            party,
        ) + earmark(tx, party),
    decreases txs.len(),
{
    let after = txs.update(i, tx);
    if i == txs.len() - 1 {
        assert(after.drop_last() =~= txs.drop_last());
    } else {
        assert(after.drop_last() =~= txs.drop_last().update(i, tx));
        lemma_reserved_total_update(txs.drop_last(), i, tx, party);
    }
}

/// Where every transfer moves a positive amount, the total earmarked in a
/// wallet is not negative and is at least the earmark of each transfer.
pub proof fn lemma_reserved_total_bounds(txs: Seq<TransactionView>, party: Seq<char>)
    requires
        forall|i: int| 0 <= i < txs.len() ==> (#[trigger] txs[i]).amount > 0,
    ensures
        reserved_total(txs, party) >= 0,
        forall|i: int| 0 <= i < txs.len() ==> earmark(#[trigger] txs[i], party) <= reserved_total(
            txs,
            party,
        ),
    decreases txs.len(),
{
    if txs.len() > 0 {
        let front = txs.drop_last();
        assert forall|i: int| 0 <= i < front.len() implies (#[trigger] front[i]).amount > 0 by {}
        lemma_reserved_total_bounds(front, party);
        assert forall|i: int| 0 <= i < txs.len() implies earmark(#[trigger] txs[i], party)
            <= reserved_total(txs, party) by {
            if i < front.len() {
                assert(front[i] == txs[i]);
            }
        }
    }
}

/// Looks a wallet up by its address.
pub fn find_wallet(wallets: &Vec<WalletInfo>, party: &Address) -> (found: Option<usize>)
    ensures
        found is Some == has_wallet(wallets@, party@),
        found matches Some(i) ==> i < wallets.len() && wallets@[i as int].address@ == party@,
        found matches Some(i) ==> forall|k: int|
            0 <= k < i ==> (#[trigger] wallets@[k]).address@ != party@,
        found matches Some(i) ==> distinct_wallets(wallets@) ==> i == wallet_index(
            wallets@,
            party@,
        ),
{
    let mut i: usize = 0;
    while i < wallets.len()
        invariant
            i <= wallets.len(),
            forall|k: int| 0 <= k < i ==> (#[trigger] wallets@[k]).address@ != party@,
        decreases wallets.len() - i,
    {
        if wallets[i].address.same_as(party) {
            proof {
                if distinct_wallets(wallets@) {
                    lemma_wallet_index_unique(wallets@, party@, i as int);
                }
            }
            return Some(i);
        }
        i += 1;
    }
    None
}

/// Decides whether no address is on the ledger twice.
pub fn wallets_distinct(wallets: &Vec<WalletInfo>) -> (ok: bool)
    ensures
        ok == distinct_wallets(wallets@),
{
    let mut j: usize = 0;
    while j < wallets.len()
        invariant
            j <= wallets.len(),
            forall|a: int, b: int|
                0 <= a < b < j ==> (#[trigger] wallets@[a]).address@ != (
                #[trigger] wallets@[b]).address@,
        decreases wallets.len() - j,
    {
        let mut i: usize = 0;
        while i < j
            invariant
                i <= j < wallets.len(),
                forall|a: int|
                    0 <= a < i ==> (#[trigger] wallets@[a]).address@ != wallets@[j as int].address@,
            decreases j - i,
        {
            if wallets[i].address.same_as(&wallets[j].address) {
                return false;
            }
            i += 1;
        }
        j += 1;
    }
    true
}

/// The first transfers of a list keep no more earmarked than the whole
/// list, where every transfer moves a positive amount.
pub proof fn lemma_reserved_total_prefix(txs: Seq<TransactionView>, k: int, party: Seq<char>)
    requires
        0 <= k <= txs.len(),
        forall|i: int| 0 <= i < txs.len() ==> (#[trigger] txs[i]).amount > 0,
    ensures
        0 <= reserved_total(txs.take(k), party) <= reserved_total(txs, party),
    decreases txs.len(),
{
    if k == txs.len() {
        assert(txs.take(k) =~= txs);
        lemma_reserved_total_bounds(txs, party);
    } else {
        let front = txs.drop_last();
        assert forall|i: int| 0 <= i < front.len() implies (#[trigger] front[i]).amount > 0 by {}
        lemma_reserved_total_prefix(front, k, party);
        assert(front.take(k) =~= txs.take(k));
    }
}

/// Adds up what the transfers keep earmarked in the wallet of `party`.
/// There is no total where the sum is beyond the machine integers.
pub fn total_reserved(transactions: &Vec<Transaction>, party: &Address) -> (total: Option<i128>)
    requires
        forall|i: int| 0 <= i < transactions.len() ==> (#[trigger] transactions@[i]).amount > 0,
    ensures
        total matches Some(sum) ==> sum == reserved_total(
            transaction_views(transactions@),
            party@,
        ),
        total is None ==> reserved_total(transaction_views(transactions@), party@) > i128::MAX,
{
    let ghost txs = transaction_views(transactions@);
    let mut sum: i128 = 0;
    let mut k: usize = 0;
    while k < transactions.len()
        invariant
            k <= transactions.len(),
            txs == transaction_views(transactions@),
            forall|i: int| 0 <= i < txs.len() ==> (#[trigger] txs[i]).amount > 0,
            sum == reserved_total(txs.take(k as int), party@),
        decreases transactions.len() - k,
    {
        proof {
            assert(txs.take(k + 1).drop_last() =~= txs.take(k as int));
            lemma_reserved_total_prefix(txs, k + 1, party@);
        }
        let transaction = &transactions[k];
        if transaction.status != TxStatus::Executed && transaction.from_wallet.same_as(party) {
            match sum.checked_add(transaction.amount) {
                Some(more) => {
                    sum = more;
                },
                None => {
                    return None;
                },
            }
        }
        k += 1;
    }
    proof {
        assert(txs.take(k as int) =~= txs);
    }
    Some(sum)
}

/// Writes a wallet to the ledger, in place of an entry with the same address
/// if there is one.
pub fn put_wallet(wallets: &mut Vec<WalletInfo>, wallet: WalletInfo)
    requires
        distinct_wallets(old(wallets)@),
    ensures
        final(wallets)@ == with_wallet(old(wallets)@, wallet),
        distinct_wallets(final(wallets)@),
{
    proof {
        lemma_with_wallet(wallets@, wallet);
    }
    match find_wallet(wallets, &wallet.address) {
        Some(i) => {
            wallets.set(i, wallet);
        },
        None => {
            wallets.push(wallet);
        },
    }
}

/// Earmarks `amount` in the wallet at `index`, provided that the wallet's
/// balance is at least `amount`. The balance itself stays as it is.
pub fn reserve(wallets: &mut Vec<WalletInfo>, index: usize, amount: i128) -> (res: Result<
    (),
    CustodyError,
>)
    requires
        index < old(wallets).len(),
        old(wallets)@[index as int].balance >= amount ==> i128::MIN <= old(
            wallets,
        )@[index as int].reserved_balance + amount <= i128::MAX,
    ensures
        old(wallets)@[index as int].balance < amount ==> res == Err::<(), CustodyError>(
            CustodyError::InsufficientFunds,
        ) && final(wallets)@ == old(wallets)@,
        old(wallets)@[index as int].balance >= amount ==> res is Ok && final(wallets)@ == old(
            wallets,
        )@.update(index as int, reserved(old(wallets)@[index as int], amount)),
{
    if wallets[index].balance < amount {
        return Err(CustodyError::InsufficientFunds);
    }
    let mut wallet = wallets[index].clone();
    wallet.reserved_balance = wallet.reserved_balance + amount;
    wallets.set(index, wallet);
    Ok(())
}

/// Takes an earmarked `amount` out of the wallet at `index`.
pub fn settle(wallets: &mut Vec<WalletInfo>, index: usize, amount: i128)
    requires
        index < old(wallets).len(),
        i128::MIN <= old(wallets)@[index as int].balance - amount <= i128::MAX,
        i128::MIN <= old(wallets)@[index as int].reserved_balance - amount <= i128::MAX,
    ensures
        final(wallets)@ == old(wallets)@.update(
            index as int,
            settled(old(wallets)@[index as int], amount),
        ),
{
    let mut wallet = wallets[index].clone();
    wallet.balance = wallet.balance - amount;
    wallet.reserved_balance = wallet.reserved_balance - amount;
    wallets.set(index, wallet);
}

} // verus!
