//! Checking a state that was put together from stored records.

use crate::contract::CustodyContract;
use crate::ledger::{find_wallet, reserved_total, total_reserved, wallets_distinct};
use crate::registry::guardians_distinct;
use crate::types::addresses_distinct;
use vstd::prelude::*;

verus! {

impl CustodyContract {
    /// Decides whether the transfers are numbered from 1, move positive
    /// amounts out of wallets that are on the ledger, and hold no approval
    /// twice.
    fn transactions_sound(&self) -> (ok: bool)
        ensures
            ok == (forall|i: int|
                0 <= i < self@.transactions.len() ==> #[trigger] self@.sound_transaction(i)),
    {
        let mut i: usize = 0;
        while i < self.transactions.len()
            invariant
                i <= self.transactions.len(),
                self@.transactions.len() == self.transactions.len(),
                forall|k: int| 0 <= k < i ==> #[trigger] self@.sound_transaction(k),
            decreases self.transactions.len() - i,
        {
            let transaction = &self.transactions[i];
            let sound = transaction.id == i as u64 + 1 && transaction.amount > 0 && find_wallet(
                &self.wallets,
                &transaction.from_wallet,
            ).is_some() && addresses_distinct(&transaction.approvals);
            if !sound {
                assert(!self@.sound_transaction(i as int));
                return false;
            }
            i += 1;
        }
        true
    }

    /// Decides whether each wallet's earmarked funds are the amounts of the
    /// transfers that were created from it and not yet executed.
    fn reservations_match(&self) -> (ok: bool)
        requires
            forall|i: int|
                0 <= i < self@.transactions.len() ==> #[trigger] self@.sound_transaction(i),
        ensures
            ok == (forall|j: int|
                0 <= j < self@.wallets.len() ==> (#[trigger] self@.wallets[j]).reserved_balance
                    == reserved_total(self@.transactions, self@.wallets[j].address@)),
    {
        proof {
            assert forall|i: int| 0 <= i < self.transactions.len() implies (
            #[trigger] self.transactions@[i]).amount > 0 by {
                assert(self@.sound_transaction(i));
            }
        }
        let mut j: usize = 0;
        while j < self.wallets.len()
            invariant
                j <= self.wallets.len(),
                forall|i: int|
                    0 <= i < self.transactions.len() ==> (#[trigger] self.transactions@[i]).amount
                        > 0,
                forall|k: int|
                    0 <= k < j ==> (#[trigger] self@.wallets[k]).reserved_balance == reserved_total(
                        self@.transactions,
                        self@.wallets[k].address@,
                    ),
            decreases self.wallets.len() - j,
        {
            let matches = match total_reserved(&self.transactions, &self.wallets[j].address) {
                Some(total) => total == self.wallets[j].reserved_balance,
                None => false,
            };
            if !matches {
                return false;
            }
            j += 1;
        }
        true
    }

    /// Decides whether the state meets the invariant that every operation
    /// asks for and keeps. A state that was put together from stored records
    /// is to be checked before it is used.
    pub fn is_well_formed(&self) -> (ok: bool)
        ensures
            ok == self@.wf(),
    {
        let count = self.transactions.len();
        if self.transaction_counter != count as u64 {
            return false;
        }
        if self.initialized {
            let set_up = match self.system_limits {
                Some(limits) => limits.check_shares() && self.hot_wallet.is_some()
                    && self.cold_wallet.is_some(),
                None => false,
            };
            if !set_up {
                return false;
            }
        } else {
            if self.guardians.len() != 0 || self.wallets.len() != 0 || count != 0 {
                return false;
            }
        }
        if !guardians_distinct(&self.guardians) {
            return false;
        }
        if !wallets_distinct(&self.wallets) {
            return false;
        }
        if !self.transactions_sound() {
            return false;
        }
        self.reservations_match()
    }
}

} // verus!
