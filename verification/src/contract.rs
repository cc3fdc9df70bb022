//! The custody engine: its state, and the operations that create, approve
//! and execute transfers.

use crate::ledger::{find_wallet, has_wallet, put_wallet, reserve, settle};
use crate::model::CustodyState;
use crate::preservation::{
    lemma_approved_wf, lemma_created_wf, lemma_executed_wf, lemma_initialized_wf,
    lemma_reserved_covers_open, lemma_shut_down_wf,
};
use crate::registry::{find_guardian, has_guardian, put_guardian, record_approval};
use crate::spending::{
    day_bucket, day_of, exceeds_limit, fits_bucket, month_bucket, month_of, record, record_fits,
    recorded, spent,
};
use crate::types::{
    contains_address, transaction_views, Address, CustodyError, Guardian, SystemLimits,
    Transaction, TxStatus, TxType, WalletInfo, WalletType,
};
use std::collections::HashMap;
use vstd::prelude::*;

verus! {

broadcast use vstd::std_specs::hash::group_hash_axioms;

/// The custody engine. It owns all that the operations read and write: the
/// configuration, the guardians, the wallets, the transfers, the spending of
/// each day and month, and the emergency switch.
#[derive(Debug, PartialEq, Eq)]
pub struct CustodyContract {
    pub initialized: bool,
    pub system_limits: Option<SystemLimits>,
    pub transaction_counter: u64,
    pub guardians: Vec<Guardian>,
    pub hot_wallet: Option<Address>,
    pub cold_wallet: Option<Address>,
    pub wallets: Vec<WalletInfo>,
    pub transactions: Vec<Transaction>,
    pub daily_spent: HashMap<u64, i128>,
    pub monthly_spent: HashMap<u64, i128>,
    pub emergency_mode: bool,
    pub emergency_initiator: Option<Address>,
}

impl View for CustodyContract {
    type V = CustodyState;

    open spec fn view(&self) -> CustodyState {
        CustodyState {
            initialized: self.initialized,
            system_limits: self.system_limits,
            transaction_counter: self.transaction_counter,
            guardians: self.guardians@,
            hot_wallet: self.hot_wallet,
            cold_wallet: self.cold_wallet,
            wallets: self.wallets@,
            transactions: transaction_views(self.transactions@),
            daily_spent: self.daily_spent@,
            monthly_spent: self.monthly_spent@,
            emergency_mode: self.emergency_mode,
            emergency_initiator: self.emergency_initiator,
        }
    }
}

impl Clone for CustodyContract {
    fn clone(&self) -> (res: Self)
        ensures
            res@ == self@,
    {
        let guardians = self.guardians.clone();
        let wallets = self.wallets.clone();
        let transactions = self.transactions.clone();
        let res = CustodyContract {
            initialized: self.initialized,
            system_limits: self.system_limits,
            transaction_counter: self.transaction_counter,
            guardians,
            hot_wallet: self.hot_wallet.clone(),
            cold_wallet: self.cold_wallet.clone(),
            wallets,
            transactions,
            daily_spent: self.daily_spent.clone(),
            monthly_spent: self.monthly_spent.clone(),
            emergency_mode: self.emergency_mode,
            emergency_initiator: self.emergency_initiator.clone(),
        };
        proof {
            assert(res@.transactions =~= self@.transactions);
        }
        res
    }
}

impl CustodyContract {
    /// An engine that was not initialised yet.
    pub fn new() -> (contract: CustodyContract)
        ensures
            contract@ == CustodyState::empty(),
            contract@.wf(),
    {
        let contract = CustodyContract {
            initialized: false,
            system_limits: None,
            transaction_counter: 0,
            guardians: Vec::new(),
            hot_wallet: None,
            cold_wallet: None,
            wallets: Vec::new(),
            transactions: Vec::new(),
            daily_spent: HashMap::new(),
            monthly_spent: HashMap::new(),
            emergency_mode: false,
            emergency_initiator: None,
        };
        proof {
            assert(contract@.transactions =~= Seq::empty());
        }
        contract
    }

    /// Fails unless the engine was initialised.
    pub fn check_initialized(&self) -> (res: Result<(), CustodyError>)
        ensures
            self.initialized ==> res is Ok,
            !self.initialized ==> res == Err::<(), CustodyError>(CustodyError::NotInitialized),
    {
        if !self.initialized {
            return Err(CustodyError::NotInitialized);
        }
        Ok(())
    }

    /// Fails while the emergency switch is on.
    pub fn check_emergency_mode(&self) -> (res: Result<(), CustodyError>)
        ensures
            !self.emergency_mode ==> res is Ok,
            self.emergency_mode ==> res == Err::<(), CustodyError>(CustodyError::EmergencyActive),
    {
        if self.emergency_mode {
            return Err(CustodyError::EmergencyActive);
        }
        Ok(())
    }

    /// Holds `amount` against the system-wide limits: fails if, on top of
    /// what was spent in the day or in the month of `now`, it goes beyond the
    /// daily or the monthly limit.
    pub fn check_spending_limits(&self, amount: i128, now: u64) -> (res: Result<(), CustodyError>)
        requires
            self.system_limits is Some,
        ensures
            self@.within_spending_limits(amount, now) ==> res is Ok,
            !self@.within_spending_limits(amount, now) ==> res == Err::<(), CustodyError>(
                CustodyError::LimitExceeded,
            ),
    {
        let limits = self.system_limits.unwrap();
        let today = day_bucket(now);
        let daily = spent(&self.daily_spent, today);
        if exceeds_limit(daily, amount, limits.daily_limit) {
            return Err(CustodyError::LimitExceeded);
        }
        let current_month = month_bucket(now);
        let monthly = spent(&self.monthly_spent, current_month);
        if exceeds_limit(monthly, amount, limits.monthly_limit) {
            return Err(CustodyError::LimitExceeded);
        }
        Ok(())
    }

    /// The transfer with this id, if it was created.
    pub fn get_transaction(&self, tx_id: u64) -> (found: Option<Transaction>)
        ensures
            found is Some == self@.has_transaction(tx_id),
            found matches Some(tx) ==> tx@ == self@.transaction(tx_id),
    {
        if tx_id < 1 || tx_id > self.transactions.len() as u64 {
            return None;
        }
        let index = (tx_id - 1) as usize;
        Some(self.transactions[index].clone())
    }

    /// The guardian on record under this address, if there is one.
    pub fn get_guardian(&self, guardian_address: Address) -> (found: Option<Guardian>)
        requires
            self@.wf(),
        ensures
            found is Some == has_guardian(self@.guardians, guardian_address@),
            found matches Some(guardian) ==> guardian == self@.guardian(guardian_address@),
    {
        match find_guardian(&self.guardians, &guardian_address) {
            Some(index) => Some(self.guardians[index].clone()),
            None => None,
        }
    }

    /// The balance of the wallet under this address, if it is on the ledger.
    pub fn get_wallet_balance(&self, wallet_address: Address) -> (balance: Option<i128>)
        requires
            self@.wf(),
        ensures
            balance is Some == has_wallet(self@.wallets, wallet_address@),
            balance matches Some(amount) ==> amount == self@.wallet(wallet_address@).balance,
    {
        match find_wallet(&self.wallets, &wallet_address) {
            Some(index) => Some(self.wallets[index].balance),
            None => None,
        }
    }

    /// The balance of the hot wallet; zero if the ledger does not hold it.
    pub fn get_hot_balance(&self) -> (balance: i128)
        requires
            self@.wf(),
            self@.initialized,
        ensures
            balance == self@.balance_or_zero(self@.hot_wallet.unwrap()@),
    {
        match &self.hot_wallet {
            Some(address) => {
                match find_wallet(&self.wallets, address) {
                    Some(index) => self.wallets[index].balance,
                    None => 0,
                }
            },
            None => 0,
        }
    }

    /// The balance of the cold wallet; zero if the ledger does not hold it.
    pub fn get_cold_balance(&self) -> (balance: i128)
        requires
            self@.wf(),
            self@.initialized,
        ensures
            balance == self@.balance_or_zero(self@.cold_wallet.unwrap()@),
    {
        match &self.cold_wallet {
            Some(address) => {
                match find_wallet(&self.wallets, address) {
                    Some(index) => self.wallets[index].balance,
                    None => 0,
                }
            },
            None => 0,
        }
    }

    /// The configured limits.
    pub fn get_system_limits(&self) -> (limits: SystemLimits)
        requires
            self@.wf(),
            self@.initialized,
        ensures
            limits == self@.limits(),
    {
        self.system_limits.unwrap()
    }

    /// Whether the emergency switch is on.
    pub fn is_emergency_mode(&self) -> (on: bool)
        ensures
            on == self@.emergency_mode,
    {
        self.emergency_mode
    }

    /// The number of transfers created so far, which is the id of the last.
    pub fn get_transaction_counter(&self) -> (count: u64)
        ensures
            count == self@.transaction_counter,
    {
        self.transaction_counter
    }
}

impl CustodyContract {
    /// Decides a request to create a transfer without changing anything:
    /// the error that turns it down, or whether the transfer needs approval.
    pub fn check_create(&self, from_wallet: &Address, amount: i128, now: u64) -> (res: Result<
        bool,
        CustodyError,
    >)
        requires
            self@.wf(),
        ensures
            res == self@.create_check(from_wallet@, amount, now),
    {
        match self.check_initialized() {
            Err(e) => {
                return Err(e);
            },
            Ok(_) => {},
        }
        match self.check_emergency_mode() {
            Err(e) => {
                return Err(e);
            },
            Ok(_) => {},
        }
        if amount <= 0 {
            return Err(CustodyError::InvalidAmount);
        }
        let index = match find_wallet(&self.wallets, from_wallet) {
            Some(index) => index,
            None => {
                return Err(CustodyError::WalletNotFound);
            },
        };
        if self.wallets[index].balance < amount {
            return Err(CustodyError::InsufficientFunds);
        }
        let limits = self.system_limits.unwrap();
        let requires_approval = amount > limits.high_value_threshold
            || self.wallets[index].wallet_type == WalletType::Cold;
        if requires_approval {
            match self.check_spending_limits(amount, now) {
                Err(e) => {
                    return Err(e);
                },
                Ok(_) => {},
            }
        }
        Ok(requires_approval)
    }

    /// Decides whether `create_transaction` can take this request: whether
    /// the sums that it would compute stay in the range of the machine
    /// integers.
    pub fn can_create(&self, from_wallet: &Address, amount: i128, now: u64) -> (fits: bool)
        requires
            self@.wf(),
        ensures
            fits == self@.create_fits(from_wallet@, amount, now),
    {
        match self.check_create(from_wallet, amount, now) {
            Err(_) => true,
            Ok(requires_approval) => {
                let index = find_wallet(&self.wallets, from_wallet).unwrap();
                let counter_fits = self.transaction_counter < u64::MAX;
                let earmark_fits = self.wallets[index].reserved_balance.checked_add(
                    amount,
                ).is_some();
                let spending_fits = requires_approval || (fits_bucket(
                    &self.daily_spent,
                    day_bucket(now),
                    amount,
                ) && fits_bucket(&self.monthly_spent, month_bucket(now), amount));
                counter_fits && earmark_fits && spending_fits
            },
        }
    }

    /// Decides an approval without changing anything: the error that turns
    /// it down, or whether it completes the quorum.
    pub fn check_approve(&self, guardian: &Address, tx_id: u64, authorized: bool) -> (res: Result<
        bool,
        CustodyError,
    >)
        requires
            self@.wf(),
        ensures
            res == self@.approve_check(guardian@, tx_id, authorized),
    {
        if !authorized {
            return Err(CustodyError::Unauthorized);
        }
        match self.check_initialized() {
            Err(e) => {
                return Err(e);
            },
            Ok(_) => {},
        }
        match self.check_emergency_mode() {
            Err(e) => {
                return Err(e);
            },
            Ok(_) => {},
        }
        let guardian_index = match find_guardian(&self.guardians, guardian) {
            Some(index) => index,
            None => {
                return Err(CustodyError::NotAGuardian);
            },
        };
        if !self.guardians[guardian_index].is_active {
            return Err(CustodyError::GuardianInactive);
        }
        if tx_id < 1 || tx_id > self.transactions.len() as u64 {
            return Err(CustodyError::TransactionNotFound);
        }
        let index = (tx_id - 1) as usize;
        if contains_address(&self.transactions[index].approvals, guardian) {
            return Err(CustodyError::DuplicateApproval);
        }
        if self.transactions[index].status != TxStatus::AwaitingApproval {
            return Err(CustodyError::InvalidTransactionState);
        }
        let limits = self.system_limits.unwrap();
        let approvals = self.transactions[index].approvals.len() as u128;
        Ok(approvals + 1 >= limits.required_approvals as u128)
    }

    /// Decides whether `approve_transaction` can take this approval: whether
    /// the sums that it would compute stay in the range of the machine
    /// integers.
    pub fn can_approve(&self, guardian: &Address, tx_id: u64, authorized: bool, now: u64) -> (fits:
        bool)
        requires
            self@.wf(),
        ensures
            fits == self@.approve_fits(guardian@, tx_id, authorized, now),
    {
        match self.check_approve(guardian, tx_id, authorized) {
            Err(_) => true,
            Ok(has_enough_approvals) => {
                proof {
                    lemma_reserved_covers_open(self@, tx_id);
                }
                let guardian_index = find_guardian(&self.guardians, guardian).unwrap();
                let count = self.transactions.len();
                assert(self@.transactions.len() == count);
                let index = (tx_id - 1) as usize;
                let amount = self.transactions[index].amount;
                let wallet_index = find_wallet(
                    &self.wallets,
                    &self.transactions[index].from_wallet,
                ).unwrap();
                let count_fits = self.guardians[guardian_index].approval_count < u32::MAX;
                let balance_fits = self.wallets[wallet_index].balance.checked_sub(
                    amount,
                ).is_some();
                let spending_fits = fits_bucket(&self.daily_spent, day_bucket(now), amount)
                    && fits_bucket(&self.monthly_spent, month_bucket(now), amount);
                count_fits && (!has_enough_approvals || (balance_fits && spending_fits))
            },
        }
    }

    /// Adds `amount` to what was spent in the day and in the month of `now`.
    fn update_spending_tracking(&mut self, amount: i128, now: u64)
        requires
            record_fits(old(self)@.daily_spent, old(self)@.monthly_spent, amount, now),
        ensures
            final(self)@ == (CustodyState {
                daily_spent: recorded(old(self)@.daily_spent, day_of(now), amount),
                monthly_spent: recorded(old(self)@.monthly_spent, month_of(now), amount),
                ..old(self)@
            }),
    {
        let today = day_bucket(now);
        let current_month = month_bucket(now);
        record(&mut self.daily_spent, today, amount);
        record(&mut self.monthly_spent, current_month, amount);
    }

    /// Executes an open transfer at `now`: settles its amount in the source
    /// wallet, records it as spent and marks the transfer `Executed`.
    fn execute_transaction_internal(&mut self, tx_id: u64, now: u64)
        requires
            old(self)@.wf(),
            old(self)@.initialized,
            old(self)@.has_transaction(tx_id),
            old(self)@.transaction(tx_id).is_open(),
            old(self)@.execute_fits(tx_id, now),
        ensures
            final(self)@ == old(self)@.executed(tx_id, now),
            final(self)@.wf(),
    {
        proof {
            lemma_executed_wf(self@, tx_id, now);
            lemma_reserved_covers_open(self@, tx_id);
        }
        let count = self.transactions.len();
        assert(self@.transactions.len() == count);
        let index = (tx_id - 1) as usize;
        let mut transaction = self.transactions[index].clone();
        let found = find_wallet(&self.wallets, &transaction.from_wallet);
        let wallet_index = found.unwrap();
        settle(&mut self.wallets, wallet_index, transaction.amount);
        transaction.status = TxStatus::Executed;
        transaction.executed_at = Some(now);
        self.update_spending_tracking(transaction.amount, now);
        let ghost done = transaction@;
        self.transactions.set(index, transaction);
        proof {
            assert(self@.transactions =~= old(self)@.transactions.update(tx_id - 1, done));
        }
    }

    /// Sets the engine up with its three guardians, its hot and cold wallet
    /// and its limits. Both wallets are opened empty.
    ///
    /// Fails with `AlreadyInitialized` on an engine that was set up before,
    /// and with `InvalidConfiguration` unless there are exactly three
    /// guardians and the wallet shares add up to 100.
    pub fn initialize(
        &mut self,
        guardians: Vec<Guardian>,
        hot_wallet: Address,
        cold_wallet: Address,
        system_limits: SystemLimits,
    ) -> (res: Result<(), CustodyError>)
        requires
            old(self)@.wf(),
        ensures
            final(self)@.wf(),
            res == old(self)@.initialize_check(guardians@, system_limits),
            final(self)@ == old(self)@.initialize_next(
                guardians@,
                hot_wallet,
                cold_wallet,
                system_limits,
            ),
            res is Err ==> *final(self) == *old(self),
    {
        if self.initialized {
            return Err(CustodyError::AlreadyInitialized);
        }
        if guardians.len() != 3 {
            return Err(CustodyError::InvalidConfiguration);
        }
        if !system_limits.check_shares() {
            return Err(CustodyError::InvalidConfiguration);
        }
        proof {
            lemma_initialized_wf(self@, guardians@, hot_wallet, cold_wallet, system_limits);
        }
        let mut registry: Vec<Guardian> = Vec::new();
        put_guardian(&mut registry, guardians[0].clone());
        put_guardian(&mut registry, guardians[1].clone());
        put_guardian(&mut registry, guardians[2].clone());
        self.guardians = registry;
        let hot_wallet_info = WalletInfo {
            address: hot_wallet.clone(),
            wallet_type: WalletType::Hot,
            balance: 0,
            reserved_balance: 0,
            is_active: true,
        };
        let cold_wallet_info = WalletInfo {
            address: cold_wallet.clone(),
            wallet_type: WalletType::Cold,
            balance: 0,
            reserved_balance: 0,
            is_active: true,
        };
        put_wallet(&mut self.wallets, hot_wallet_info);
        put_wallet(&mut self.wallets, cold_wallet_info);
        self.hot_wallet = Some(hot_wallet);
        self.cold_wallet = Some(cold_wallet);
        self.system_limits = Some(system_limits);
        self.transaction_counter = 0;
        self.emergency_mode = false;
        self.initialized = true;
        Ok(())
    }

    /// Requests a transfer of `amount` out of the wallet `from_wallet`, at
    /// the time `now`, and returns the id of the transfer.
    ///
    /// The request is turned down, in this order: before initialisation;
    /// while the emergency switch is on; for an amount that is not positive;
    /// for a wallet that is not on the ledger; for an amount above the
    /// wallet's balance; and, where the transfer needs approval, for an
    /// amount beyond the daily or monthly limit. An accepted transfer is
    /// stored under the next id with its amount earmarked. One that needs no
    /// approval is executed at once.
    pub fn create_transaction(
        &mut self,
        from_wallet: Address,
        to_address: Address,
        amount: i128,
        memo: String,
        tx_type: TxType,
        now: u64,
    ) -> (res: Result<u64, CustodyError>)
        requires
            old(self)@.wf(),
            old(self)@.create_fits(from_wallet@, amount, now),
        ensures
            final(self)@.wf(),
            final(self)@ == old(self)@.create_next(
                from_wallet,
                to_address,
                amount,
                memo,
                tx_type,
                now,
            ),
            match res {
                Ok(tx_id) => old(self)@.create_check(from_wallet@, amount, now) is Ok && tx_id
                    == old(self)@.transaction_counter + 1,
                Err(e) => old(self)@.create_check(from_wallet@, amount, now) == Err::<
                    bool,
                    CustodyError,
                >(e) && *final(self) == *old(self),
            },
    {
        let requires_approval = match self.check_create(&from_wallet, amount, now) {
            Ok(requires_approval) => requires_approval,
            Err(e) => {
                return Err(e);
            },
        };
        let index = find_wallet(&self.wallets, &from_wallet).unwrap();
        proof {
            lemma_created_wf(
                self@,
                from_wallet,
                to_address,
                amount,
                memo,
                tx_type,
                requires_approval,
                now,
            );
            lemma_reserved_covers_open(
                self@.created(
                    from_wallet,
                    to_address,
                    amount,
                    memo,
                    tx_type,
                    requires_approval,
                    now,
                ),
                (self.transaction_counter + 1) as u64,
            );
        }
        let tx_id = self.transaction_counter + 1;
        let transaction = Transaction {
            id: tx_id,
            from_wallet,
            to_address,
            amount,
            memo,
            tx_type,
            status: if requires_approval {
                TxStatus::AwaitingApproval
            } else {
                TxStatus::Pending
            },
            approvals: Vec::new(),
            created_at: now,
            executed_at: None,
            requires_approval,
        };
        let ghost stored = transaction@;
        match reserve(&mut self.wallets, index, amount) {
            Err(e) => {
                return Err(e);
            },
            Ok(_) => {},
        }
        self.transactions.push(transaction);
        self.transaction_counter = tx_id;
        proof {
            assert(self@.transactions =~= old(self)@.transactions.push(stored));
        }
        if !requires_approval {
            self.execute_transaction_internal(tx_id, now);
        }
        Ok(tx_id)
    }

    /// Records the approval of `guardian` for a transfer, at the time `now`,
    /// and returns whether it completed the quorum. `authorized` says whether
    /// the caller has proved to be that guardian.
    ///
    /// The approval is turned down, in this order: from a caller who is not
    /// authorized; before initialisation; while the emergency switch is on;
    /// from an address that is no guardian; from a guardian who is not
    /// active; for a transfer that does not exist; from a guardian who
    /// approved it before; and for a transfer that is not awaiting approval.
    /// With the approval that completes the quorum the transfer is executed.
    pub fn approve_transaction(
        &mut self,
        guardian: Address,
        tx_id: u64,
        authorized: bool,
        now: u64,
    ) -> (res: Result<bool, CustodyError>)
        requires
            old(self)@.wf(),
            old(self)@.approve_fits(guardian@, tx_id, authorized, now),
        ensures
            final(self)@.wf(),
            final(self)@ == old(self)@.approve_next(guardian, tx_id, authorized, now),
            res == old(self)@.approve_check(guardian@, tx_id, authorized),
            res is Err ==> *final(self) == *old(self),
    {
        let has_enough_approvals = match self.check_approve(&guardian, tx_id, authorized) {
            Ok(has_enough_approvals) => has_enough_approvals,
            Err(e) => {
                return Err(e);
            },
        };
        let guardian_index = find_guardian(&self.guardians, &guardian).unwrap();
        let count = self.transactions.len();
        assert(self@.transactions.len() == count);
        let index = (tx_id - 1) as usize;
        proof {
            lemma_approved_wf(self@, guardian, tx_id, now);
            lemma_reserved_covers_open(self@, tx_id);
        }
        let mut transaction = self.transactions[index].clone();
        transaction.approvals.push(guardian);
        record_approval(&mut self.guardians, guardian_index, now);
        let ghost signed = transaction@;
        self.transactions.set(index, transaction);
        proof {
            assert(self@.transactions =~= old(self)@.transactions.update(tx_id - 1, signed));
        }
        if has_enough_approvals {
            self.execute_transaction_internal(tx_id, now);
        }
        Ok(has_enough_approvals)
    }

    /// Throws the emergency switch in the name of `guardian`. `authorized`
    /// says whether the caller has proved to be that guardian.
    ///
    /// Fails from a caller who is not authorized, before initialisation, from
    /// an address that is no guardian and from a guardian who is not active.
    /// Nothing turns the switch off again.
    pub fn emergency_shutdown(&mut self, guardian: Address, authorized: bool) -> (res: Result<
        (),
        CustodyError,
    >)
        requires
            old(self)@.wf(),
        ensures
            final(self)@.wf(),
            res == old(self)@.shutdown_check(guardian@, authorized),
            final(self)@ == old(self)@.shutdown_next(guardian, authorized),
            res is Err ==> *final(self) == *old(self),
    {
        if !authorized {
            return Err(CustodyError::Unauthorized);
        }
        match self.check_initialized() {
            Err(e) => {
                return Err(e);
            },
            Ok(_) => {},
        }
        let guardian_index = match find_guardian(&self.guardians, &guardian) {
            Some(index) => index,
            None => {
                return Err(CustodyError::NotAGuardian);
            },
        };
        if !self.guardians[guardian_index].is_active {
            return Err(CustodyError::GuardianInactive);
        }
        proof {
            lemma_shut_down_wf(self@, guardian);
        }
        self.emergency_mode = true;
        self.emergency_initiator = Some(guardian);
        Ok(())
    }
}

} // verus!
