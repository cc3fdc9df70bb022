//! The engine's state as the contracts speak of it, and each operation as a
//! function from the state before it to its outcome and the state after it.

use crate::ledger::{
    distinct_wallets, has_wallet, reserved, reserved_total, settled, wallet_index, with_wallet,
};
use crate::registry::{
    approval_recorded, distinct_guardians, guardian_index, has_guardian, with_guardian,
};
use crate::spending::{day_of, month_of, record_fits, recorded, within_limits};
use crate::types::{
    distinct_addresses, lists_address, Address, CustodyError, Guardian, SystemLimits,
    TransactionView, TxStatus, TxType, WalletInfo, WalletType,
};
use vstd::prelude::*;

verus! {

/// Everything that the engine keeps between two calls.
pub struct CustodyState {
    pub initialized: bool,
    pub system_limits: Option<SystemLimits>,
    pub transaction_counter: u64,
    pub guardians: Seq<Guardian>,
    pub hot_wallet: Option<Address>,
    pub cold_wallet: Option<Address>,
    pub wallets: Seq<WalletInfo>,
    pub transactions: Seq<TransactionView>,
    pub daily_spent: Map<u64, i128>,
    pub monthly_spent: Map<u64, i128>,
    pub emergency_mode: bool,
    pub emergency_initiator: Option<Address>,
}

/// A wallet as it is opened: empty and active.
pub open spec fn fresh_wallet(address: Address, wallet_type: WalletType) -> WalletInfo {
    WalletInfo { address, wallet_type, balance: 0, reserved_balance: 0, is_active: true }
}

/// A transfer as it is created: without approvals, and not yet executed.
pub open spec fn new_transaction(
    id: u64,
    from_wallet: Address,
    to_address: Address,
    amount: i128,
    memo: String,
    tx_type: TxType,
    needs_approval: bool,
    now: u64,
) -> TransactionView {
    TransactionView {
        id,
        from_wallet,
        to_address,
        amount,
        memo,
        tx_type,
        status: if needs_approval {
            TxStatus::AwaitingApproval
        } else {
            TxStatus::Pending
        },
        approvals: Seq::empty(),
        created_at: now,
        executed_at: None,
        requires_approval: needs_approval,
    }
}

impl CustodyState {
    /// The state of an engine that was not initialised yet: nothing is on
    /// record.
    pub open spec fn empty() -> CustodyState {
        CustodyState {
            initialized: false,
            system_limits: None,
            transaction_counter: 0,
            guardians: Seq::empty(),
            hot_wallet: None,
            cold_wallet: None,
            wallets: Seq::empty(),
            transactions: Seq::empty(),
            daily_spent: Map::empty(),
            monthly_spent: Map::empty(),
            emergency_mode: false,
            emergency_initiator: None,
        }
    }

    /// The configured limits of an initialised engine.
    pub open spec fn limits(self) -> SystemLimits {
        self.system_limits.unwrap()
    }

    /// The guardian on record under an address.
    pub open spec fn guardian(self, party: Seq<char>) -> Guardian {
        self.guardians[guardian_index(self.guardians, party)]
    }

    /// The wallet on the ledger under an address.
    pub open spec fn wallet(self, party: Seq<char>) -> WalletInfo {
        self.wallets[wallet_index(self.wallets, party)]
    }

    /// The balance of the wallet under an address, and zero where the
    /// ledger holds no such wallet.
    pub open spec fn balance_or_zero(self, party: Seq<char>) -> i128 {
        if has_wallet(self.wallets, party) {
            self.wallet(party).balance
        } else {
            0
        }
    }

    /// Whether a transfer with this id was created.
    pub open spec fn has_transaction(self, tx_id: u64) -> bool {
        1 <= tx_id <= self.transactions.len()
    }

    /// The transfer with this id.
    pub open spec fn transaction(self, tx_id: u64) -> TransactionView {
        self.transactions[tx_id - 1]
    }

    /// What holds of the transfer at position `i` in every state that the
    /// engine reaches: ids count up from 1, amounts are positive, the source
    /// wallet is on the ledger, and no guardian approved twice.
    pub open spec fn sound_transaction(self, i: int) -> bool {
        let tx = self.transactions[i];
        &&& tx.id == i + 1
        &&& tx.amount > 0
        &&& has_wallet(self.wallets, tx.from_wallet@)
        &&& distinct_addresses(tx.approvals)
    }

    /// The invariant of the engine's state. Every operation keeps it.
    ///
    /// Besides the shape of the records it says that each wallet's earmarked
    /// funds are exactly the amounts of the transfers that were created from
    /// it and not yet executed.
    pub open spec fn wf(self) -> bool {
        &&& self.transaction_counter == self.transactions.len()
        &&& self.initialized ==> {
            &&& self.system_limits is Some
            &&& self.hot_wallet is Some
            &&& self.cold_wallet is Some
            &&& self.limits().shares_add_up()
        }
        &&& !self.initialized ==> {
            &&& self.guardians.len() == 0
            &&& self.wallets.len() == 0
            &&& self.transactions.len() == 0
        }
        &&& distinct_guardians(self.guardians)
        &&& distinct_wallets(self.wallets)
        &&& forall|i: int|
            0 <= i < self.transactions.len() ==> #[trigger] self.sound_transaction(i)
        &&& forall|j: int|
            0 <= j < self.wallets.len() ==> (#[trigger] self.wallets[j]).reserved_balance
                == reserved_total(self.transactions, self.wallets[j].address@)
    }

    /// The outcome of an initialisation request.
    pub open spec fn initialize_check(
        self,
        guardians: Seq<Guardian>,
        limits: SystemLimits,
    ) -> Result<(), CustodyError> {
        if self.initialized {
            Err(CustodyError::AlreadyInitialized)
        } else if guardians.len() != 3 {
            Err(CustodyError::InvalidConfiguration)
        } else if !limits.shares_add_up() {
            Err(CustodyError::InvalidConfiguration)
        } else {
            Ok(())
        }
    }

    /// The state after an initialisation that was accepted: the three
    /// guardians are on record, the hot and the cold wallet are opened, and
    /// no transfer was counted yet.
    pub open spec fn initialized_with(
        self,
        guardians: Seq<Guardian>,
        hot_wallet: Address,
        cold_wallet: Address,
        limits: SystemLimits,
    ) -> CustodyState {
        CustodyState {
            initialized: true,
            system_limits: Some(limits),
            transaction_counter: 0,
            guardians: with_guardian(
                with_guardian(with_guardian(Seq::empty(), guardians[0]), guardians[1]),
                guardians[2],
            ),
            hot_wallet: Some(hot_wallet),
            cold_wallet: Some(cold_wallet),
            wallets: with_wallet(
                with_wallet(self.wallets, fresh_wallet(hot_wallet, WalletType::Hot)),
                fresh_wallet(cold_wallet, WalletType::Cold),
            ),
            emergency_mode: false,
            ..self
        }
    }

    /// The state after an initialisation request: set up where the request
    /// was accepted, and as before where it was turned down.
    pub open spec fn initialize_next(
        self,
        guardians: Seq<Guardian>,
        hot_wallet: Address,
        cold_wallet: Address,
        limits: SystemLimits,
    ) -> CustodyState {
        if self.initialize_check(guardians, limits) is Ok {
            self.initialized_with(guardians, hot_wallet, cold_wallet, limits)
        } else {
            self
        }
    }

    /// Whether a transfer of `amount` from this wallet needs the guardians'
    /// approval: it does above the high-value threshold, and always from a
    /// cold wallet.
    pub open spec fn needs_approval(self, wallet: WalletInfo, amount: i128) -> bool {
        amount > self.limits().high_value_threshold || wallet.wallet_type == WalletType::Cold
    }

    /// Whether a transfer of `amount` at `now` stays within the system-wide
    /// daily and monthly limits.
    pub open spec fn within_spending_limits(self, amount: i128, now: u64) -> bool {
        within_limits(
            self.daily_spent,
            self.monthly_spent,
            self.limits().daily_limit,
            self.limits().monthly_limit,
            amount,
            now,
        )
    }

    /// The outcome of a request to create a transfer: the error that turns
    /// it down, or whether the transfer will need approval.
    pub open spec fn create_check(self, from_wallet: Seq<char>, amount: i128, now: u64) -> Result<
        bool,
        CustodyError,
    > {
        if !self.initialized {
            Err(CustodyError::NotInitialized)
        } else if self.emergency_mode {
            Err(CustodyError::EmergencyActive)
        } else if amount <= 0 {
            Err(CustodyError::InvalidAmount)
        } else if !has_wallet(self.wallets, from_wallet) {
            Err(CustodyError::WalletNotFound)
        } else if self.wallet(from_wallet).balance < amount {
            Err(CustodyError::InsufficientFunds)
        } else if self.needs_approval(self.wallet(from_wallet), amount)
            && !self.within_spending_limits(amount, now) {
            Err(CustodyError::LimitExceeded)
        } else {
            Ok(self.needs_approval(self.wallet(from_wallet), amount))
        }
    }

    /// Whether the sums that an accepted creation computes stay in the
    /// range of the machine integers.
    pub open spec fn create_fits(self, from_wallet: Seq<char>, amount: i128, now: u64) -> bool {
        match self.create_check(from_wallet, amount, now) {
            Ok(needs_approval) => {
                &&& self.transaction_counter < u64::MAX
                &&& self.wallet(from_wallet).reserved_balance + amount <= i128::MAX
                &&& !needs_approval ==> record_fits(
                    self.daily_spent,
                    self.monthly_spent,
                    amount,
                    now,
                )
            },
            Err(_) => true,
        }
    }

    /// The state after a transfer was stored under the next id and its
    /// amount was earmarked in the source wallet.
    pub open spec fn created(
        self,
        from_wallet: Address,
        to_address: Address,
        amount: i128,
        memo: String,
        tx_type: TxType,
        needs_approval: bool,
        now: u64,
    ) -> CustodyState {
        CustodyState {
            transaction_counter: (self.transaction_counter + 1) as u64,
            transactions: self.transactions.push(
                new_transaction(
                    (self.transaction_counter + 1) as u64,
                    from_wallet,
                    to_address,
                    amount,
                    memo,
                    tx_type,
                    needs_approval,
                    now,
                ),
            ),
            wallets: self.wallets.update(
                wallet_index(self.wallets, from_wallet@),
                reserved(self.wallet(from_wallet@), amount),
            ),
            ..self
        }
    }

    /// Whether the sums that the execution of a transfer computes stay in
    /// the range of the machine integers.
    pub open spec fn execute_fits(self, tx_id: u64, now: u64) -> bool {
        let tx = self.transaction(tx_id);
        &&& i128::MIN <= self.wallet(tx.from_wallet@).balance - tx.amount
        &&& record_fits(self.daily_spent, self.monthly_spent, tx.amount, now)
    }

    /// The state after a transfer was executed at `now`: its amount has left
    /// the source wallet's balance and earmarked funds, it was added to the
    /// spending of the day and of the month, and the transfer is marked
    /// `Executed`.
    pub open spec fn executed(self, tx_id: u64, now: u64) -> CustodyState {
        let tx = self.transaction(tx_id);
        CustodyState {
            transactions: self.transactions.update(
                tx_id - 1,
                TransactionView { status: TxStatus::Executed, executed_at: Some(now), ..tx },
            ),
            wallets: self.wallets.update(
                wallet_index(self.wallets, tx.from_wallet@),
                settled(self.wallet(tx.from_wallet@), tx.amount),
            ),
            daily_spent: recorded(self.daily_spent, day_of(now), tx.amount),
            monthly_spent: recorded(self.monthly_spent, month_of(now), tx.amount),
            ..self
        }
    }

    /// The state after a transfer was created: stored and earmarked, and
    /// executed at once where it needs no approval.
    pub open spec fn create_next(
        self,
        from_wallet: Address,
        to_address: Address,
        amount: i128,
        memo: String,
        tx_type: TxType,
        now: u64,
    ) -> CustodyState {
        match self.create_check(from_wallet@, amount, now) {
            Ok(needs_approval) => {
                let stored = self.created(
                    from_wallet,
                    to_address,
                    amount,
                    memo,
                    tx_type,
                    needs_approval,
                    now,
                );
                if needs_approval {
                    stored
                } else {
                    stored.executed(stored.transaction_counter, now)
                }
            },
            Err(_) => self,
        }
    }

    /// The outcome of a guardian's approval: the error that turns it down,
    /// or whether this approval completes the quorum.
    pub open spec fn approve_check(self, guardian: Seq<char>, tx_id: u64, authorized: bool) -> Result<
        bool,
        CustodyError,
    > {
        if !authorized {
            Err(CustodyError::Unauthorized)
        } else if !self.initialized {
            Err(CustodyError::NotInitialized)
        } else if self.emergency_mode {
            Err(CustodyError::EmergencyActive)
        } else if !has_guardian(self.guardians, guardian) {
            Err(CustodyError::NotAGuardian)
        } else if !self.guardian(guardian).is_active {
            Err(CustodyError::GuardianInactive)
        } else if !self.has_transaction(tx_id) {
            Err(CustodyError::TransactionNotFound)
        } else if lists_address(self.transaction(tx_id).approvals, guardian) {
            Err(CustodyError::DuplicateApproval)
        } else if self.transaction(tx_id).status != TxStatus::AwaitingApproval {
            Err(CustodyError::InvalidTransactionState)
        } else {
            Ok(self.transaction(tx_id).approvals.len() + 1 >= self.limits().required_approvals)
        }
    }

    /// Whether the sums that an accepted approval computes stay in the range
    /// of the machine integers.
    pub open spec fn approve_fits(
        self,
        guardian: Seq<char>,
        tx_id: u64,
        authorized: bool,
        now: u64,
    ) -> bool {
        match self.approve_check(guardian, tx_id, authorized) {
            Ok(quorum) => {
                &&& self.guardian(guardian).approval_count < u32::MAX
                &&& quorum ==> self.execute_fits(tx_id, now)
            },
            Err(_) => true,
        }
    }

    /// The state after a guardian's approval was added to a transfer and
    /// counted in the guardian's statistics.
    pub open spec fn approved(self, guardian: Address, tx_id: u64, now: u64) -> CustodyState {
        let tx = self.transaction(tx_id);
        CustodyState {
            guardians: self.guardians.update(
                guardian_index(self.guardians, guardian@),
                approval_recorded(self.guardian(guardian@), now),
            ),
            transactions: self.transactions.update(
                tx_id - 1,
                TransactionView { approvals: tx.approvals.push(guardian), ..tx },
            ),
            ..self
        }
    }

    /// The state after an approval: recorded, and the transfer executed at
    /// once where the approval completes the quorum.
    pub open spec fn approve_next(
        self,
        guardian: Address,
        tx_id: u64,
        authorized: bool,
        now: u64,
    ) -> CustodyState {
        match self.approve_check(guardian@, tx_id, authorized) {
            Ok(quorum) => {
                let noted = self.approved(guardian, tx_id, now);
                if quorum {
                    noted.executed(tx_id, now)
                } else {
                    noted
                }
            },
            Err(_) => self,
        }
    }

    /// The outcome of a request for an emergency shutdown.
    pub open spec fn shutdown_check(self, guardian: Seq<char>, authorized: bool) -> Result<
        (),
        CustodyError,
    > {
        if !authorized {
            Err(CustodyError::Unauthorized)
        } else if !self.initialized {
            Err(CustodyError::NotInitialized)
        } else if !has_guardian(self.guardians, guardian) {
            Err(CustodyError::NotAGuardian)
        } else if !self.guardian(guardian).is_active {
            Err(CustodyError::GuardianInactive)
        } else {
            Ok(())
        }
    }

    /// The state after an emergency shutdown: the switch is on, and the
    /// guardian who threw it is on record.
    pub open spec fn shut_down(self, guardian: Address) -> CustodyState {
        CustodyState { emergency_mode: true, emergency_initiator: Some(guardian), ..self }
    }

    /// The state after a request for an emergency shutdown: shut down where
    /// the request was accepted, and as before where it was turned down.
    pub open spec fn shutdown_next(self, guardian: Address, authorized: bool) -> CustodyState {
        if self.shutdown_check(guardian@, authorized) is Ok {
            self.shut_down(guardian)
        } else {
            self
        }
    }

    /// Whether an active guardian of an initialised engine is among those
    /// who approved a transfer.
    pub open spec fn has_approved(self, guardian: Seq<char>, tx_id: u64) -> bool {
        &&& self.initialized
        &&& has_guardian(self.guardians, guardian)
        &&& self.guardian(guardian).is_active
        &&& self.has_transaction(tx_id)
        &&& lists_address(self.transaction(tx_id).approvals, guardian)
    }

    /// Whether every transfer is at one of the two places where a request
    /// leaves it: awaiting approval and not executed, or executed at a known
    /// time.
    pub open spec fn at_rest(self) -> bool {
        forall|i: int|
            0 <= i < self.transactions.len() ==> {
                let tx = #[trigger] self.transactions[i];
                ||| tx.status == TxStatus::AwaitingApproval && tx.executed_at is None
                    && tx.requires_approval
                ||| tx.status == TxStatus::Executed && tx.executed_at is Some
            }
    }

    /// Whether the earmarked funds of every wallet are covered by its balance.
    pub open spec fn all_covered(self) -> bool {
        forall|j: int| 0 <= j < self.wallets.len() ==> (#[trigger] self.wallets[j]).covered()
    }

    /// Whether a request, where it creates a transfer, asks for no more than
    /// the source wallet holds beyond the funds that are earmarked already.
    pub open spec fn step_covered(self, request: Request) -> bool {
        match request {
            Request::Create { from_wallet, amount, now, .. } => {
                self.create_check(from_wallet@, amount, now) is Ok ==> amount <= self.wallet(
                    from_wallet@,
                ).balance - self.wallet(from_wallet@).reserved_balance
            },
            _ => true,
        }
    }

    /// Whether each request of a sequence, in the state in which it is
    /// taken, asks for no more than the source wallet has free.
    pub open spec fn run_covered(self, requests: Seq<Request>) -> bool
        decreases requests.len(),
    {
        if requests.len() == 0 {
            true
        } else {
            &&& self.run_covered(requests.drop_last())
            &&& self.run(requests.drop_last()).step_covered(requests.last())
        }
    }

    /// The state after one request.
    pub open spec fn step(self, request: Request) -> CustodyState {
        match request {
            Request::Initialize { guardians, hot_wallet, cold_wallet, limits } => {
                self.initialize_next(guardians, hot_wallet, cold_wallet, limits)
            },
            Request::Create { from_wallet, to_address, amount, memo, tx_type, now } => {
                self.create_next(from_wallet, to_address, amount, memo, tx_type, now)
            },
            Request::Approve { guardian, tx_id, authorized, now } => {
                self.approve_next(guardian, tx_id, authorized, now)
            },
            Request::Shutdown { guardian, authorized } => self.shutdown_next(guardian, authorized),
        }
    }

    /// Whether the sums that one request computes stay in the range of the
    /// machine integers.
    pub open spec fn step_fits(self, request: Request) -> bool {
        match request {
            Request::Create { from_wallet, amount, now, .. } => {
                self.create_fits(from_wallet@, amount, now)
            },
            Request::Approve { guardian, tx_id, authorized, now } => {
                self.approve_fits(guardian@, tx_id, authorized, now)
            },
            _ => true,
        }
    }

    /// The state after a sequence of requests, taken one after the other.
    pub open spec fn run(self, requests: Seq<Request>) -> CustodyState
        decreases requests.len(),
    {
        if requests.len() == 0 {
            self
        } else {
            self.run(requests.drop_last()).step(requests.last())
        }
    }

    /// Whether each request of a sequence, in the state in which it is
    /// taken, stays in the range of the machine integers.
    pub open spec fn run_fits(self, requests: Seq<Request>) -> bool
        decreases requests.len(),
    {
        if requests.len() == 0 {
            true
        } else {
            &&& self.run_fits(requests.drop_last())
            &&& self.run(requests.drop_last()).step_fits(requests.last())
        }
    }
}

/// One request to the engine, with all that it is given.
pub enum Request {
    Initialize {
        guardians: Seq<Guardian>,
        hot_wallet: Address,
        cold_wallet: Address,
        limits: SystemLimits,
    },
    Create {
        from_wallet: Address,
        to_address: Address,
        amount: i128,
        memo: String,
        tx_type: TxType,
        now: u64,
    },
    Approve { guardian: Address, tx_id: u64, authorized: bool, now: u64 },
    Shutdown { guardian: Address, authorized: bool },
}

} // verus!
