//! The records that the custody engine keeps: identities, guardians, wallets,
//! transfers and the limits they are held to.

use vstd::prelude::*;

verus! {

/// An identity on the ledger: a guardian, a wallet or a payee.
///
/// Two addresses name the same party exactly when their keys hold the same
/// characters, so every rule of the engine compares addresses by their view.
#[derive(Debug, PartialEq, Eq)]
pub struct Address {
    pub key: String,
}

impl View for Address {
    type V = Seq<char>;

    open spec fn view(&self) -> Seq<char> {
        self.key@
    }
}

impl Clone for Address {
    fn clone(&self) -> (res: Self)
        ensures
            res == *self,
    {
        Address { key: self.key.clone() }
    }
}

impl Address {
    /// The address with the given key.
    pub fn new(key: String) -> (a: Address)
        ensures
            a@ == key@,
            a.key == key,
    {
        Address { key }
    }

    /// Whether both addresses name the same party.
    pub fn same_as(&self, other: &Address) -> (same: bool)
        ensures
            same == (self@ == other@),
    {
        self.key == other.key
    }
}

/// What a wallet is kept for: day-to-day payments or long-term storage.
#[derive(Clone, Copy, Debug, PartialEq, Eq, Structural)]
pub enum WalletType {
    Hot,
    Cold,
}

/// The purpose that a transfer was requested for.
#[derive(Clone, Copy, Debug, PartialEq, Eq, Structural)]
pub enum TxType {
    Payment,
    Rebalance,
    Withdrawal,
    Emergency,
}

/// Where a transfer stands in its life cycle.
///
/// A transfer that needs no approval goes from `Pending` to `Executed` within
/// the call that creates it; one that needs approval waits in
/// `AwaitingApproval` and goes through `Approved` to `Executed` within the
/// call that completes the quorum. Nothing in the engine produces `Failed` or
/// `Cancelled`.
#[derive(Clone, Copy, Debug, PartialEq, Eq, Structural)]
pub enum TxStatus {
    Pending,
    AwaitingApproval,
    Approved,
    Executed,
    Failed,
    Cancelled,
}

/// Why the engine turned a request down. A rejected request changes nothing.
#[derive(Clone, Copy, Debug, PartialEq, Eq, Structural)]
pub enum CustodyError {
    AlreadyInitialized,
    InvalidConfiguration,
    NotInitialized,
    EmergencyActive,
    InvalidAmount,
    WalletNotFound,
    InsufficientFunds,
    LimitExceeded,
    NotAGuardian,
    GuardianInactive,
    TransactionNotFound,
    DuplicateApproval,
    InvalidTransactionState,
    Unauthorized,
}

/// The system-wide configuration, fixed when the engine is initialised.
#[derive(Clone, Copy, Debug, PartialEq, Eq, Structural)]
pub struct SystemLimits {
    pub daily_limit: i128,
    pub monthly_limit: i128,
    pub high_value_threshold: i128,
    pub required_approvals: u32,
    pub cold_wallet_percentage: u32,
    pub hot_wallet_percentage: u32,
}

impl SystemLimits {
    /// The two wallet shares add up to the whole.
    pub open spec fn shares_add_up(self) -> bool {
        self.cold_wallet_percentage + self.hot_wallet_percentage == 100
    }

    /// Decides whether the two wallet shares add up to the whole.
    pub fn check_shares(&self) -> (ok: bool)
        ensures
            ok == self.shares_add_up(),
    {
        let cold: u64 = self.cold_wallet_percentage as u64;
        let hot: u64 = self.hot_wallet_percentage as u64;
        cold + hot == 100
    }
}

/// An approver, with the statistics of the approvals given so far.
///
/// The guardian's own `daily_limit` and `monthly_limit` are kept on record
/// only: the engine enforces the system-wide limits.
#[derive(Debug, PartialEq, Eq)]
pub struct Guardian {
    pub address: Address,
    pub role: String,
    pub is_active: bool,
    pub daily_limit: i128,
    pub monthly_limit: i128,
    pub approval_count: u32,
    pub last_approval: u64,
}

impl Clone for Guardian {
    fn clone(&self) -> (res: Self)
        ensures
            res == *self,
    {
        Guardian {
            address: self.address.clone(),
            role: self.role.clone(),
            is_active: self.is_active,
            daily_limit: self.daily_limit,
            monthly_limit: self.monthly_limit,
            approval_count: self.approval_count,
            last_approval: self.last_approval,
        }
    }
}

/// A wallet's funds: what it holds, and how much of that is earmarked for
/// transfers that still wait for approval.
#[derive(Debug, PartialEq, Eq)]
pub struct WalletInfo {
    pub address: Address,
    pub wallet_type: WalletType,
    pub balance: i128,
    pub reserved_balance: i128,
    pub is_active: bool,
}

impl Clone for WalletInfo {
    fn clone(&self) -> (res: Self)
        ensures
            res == *self,
    {
        WalletInfo {
            address: self.address.clone(),
            wallet_type: self.wallet_type,
            balance: self.balance,
            reserved_balance: self.reserved_balance,
            is_active: self.is_active,
        }
    }
}

impl WalletInfo {
    /// The earmarked funds are not negative and are covered by the balance.
    pub open spec fn covered(self) -> bool {
        0 <= self.reserved_balance <= self.balance
    }
}

/// Whether no party occurs twice in a list of addresses.
pub open spec fn distinct_addresses(list: Seq<Address>) -> bool {
    forall|i: int, j: int|
        0 <= i < j < list.len() ==> (#[trigger] list[i])@ != (#[trigger] list[j])@
}

/// Whether a party occurs in a list of addresses.
pub open spec fn lists_address(list: Seq<Address>, party: Seq<char>) -> bool {
    exists|i: int| 0 <= i < list.len() && (#[trigger] list[i])@ == party
}

/// Decides whether a party occurs in a list of addresses.
pub fn contains_address(list: &Vec<Address>, party: &Address) -> (found: bool)
    ensures
        found == lists_address(list@, party@),
{
    let mut i: usize = 0;
    while i < list.len()
        invariant
            i <= list.len(),
            forall|k: int| 0 <= k < i ==> (#[trigger] list@[k])@ != party@,
        decreases list.len() - i,
    {
        if list[i].same_as(party) {
            return true;
        }
        i += 1;
    }
    false
}

/// Decides whether no party occurs twice in a list of addresses.
pub fn addresses_distinct(list: &Vec<Address>) -> (ok: bool)
    ensures
        ok == distinct_addresses(list@),
{
    let mut j: usize = 0;
    while j < list.len()
        invariant
            j <= list.len(),
            forall|a: int, b: int| 0 <= a < b < j ==> (#[trigger] list@[a])@ != (#[trigger] list@[b])@,
        decreases list.len() - j,
    {
        let mut i: usize = 0;
        while i < j
            invariant
                i <= j < list.len(),
                forall|a: int| 0 <= a < i ==> (#[trigger] list@[a])@ != list@[j as int]@,
            decreases j - i,
        {
            if list[i].same_as(&list[j]) {
                return false;
            }
            i += 1;
        }
        j += 1;
    }
    true
}

/// Copies a list of addresses.
pub fn clone_addresses(list: &Vec<Address>) -> (copy: Vec<Address>)
    ensures
        copy@ == list@,
{
    let mut copy: Vec<Address> = Vec::new();
    let mut i: usize = 0;
    while i < list.len()
        invariant
            i <= list.len(),
            copy@ == list@.take(i as int),
        decreases list.len() - i,
    {
        copy.push(list[i].clone());
        i += 1;
    }
    copy
}

/// A requested transfer and what became of it.
#[derive(Debug, PartialEq, Eq)]
pub struct Transaction {
    pub id: u64,
    pub from_wallet: Address,
    pub to_address: Address,
    pub amount: i128,
    pub memo: String,
    pub tx_type: TxType,
    pub status: TxStatus,
    pub approvals: Vec<Address>,
    pub created_at: u64,
    pub executed_at: Option<u64>,
    pub requires_approval: bool,
}

/// A transfer as the contracts speak of it: the approvals are a sequence.
pub struct TransactionView {
    pub id: u64,
    pub from_wallet: Address,
    pub to_address: Address,
    pub amount: i128,
    pub memo: String,
    pub tx_type: TxType,
    pub status: TxStatus,
    pub approvals: Seq<Address>,
    pub created_at: u64,
    pub executed_at: Option<u64>,
    pub requires_approval: bool,
}

impl View for Transaction {
    type V = TransactionView;

    open spec fn view(&self) -> TransactionView {
        TransactionView {
            id: self.id,
            from_wallet: self.from_wallet,
            to_address: self.to_address,
            amount: self.amount,
            memo: self.memo,
            tx_type: self.tx_type,
            status: self.status,
            approvals: self.approvals@,
            created_at: self.created_at,
            executed_at: self.executed_at,
            requires_approval: self.requires_approval,
        }
    }
}

/// The transfers of a list, each as the contracts speak of it.
pub open spec fn transaction_views(txs: Seq<Transaction>) -> Seq<TransactionView> {
    txs.map_values(|tx: Transaction| tx@)
}

impl Clone for Transaction {
    fn clone(&self) -> (res: Self)
        ensures
            res@ == self@,
    {
        Transaction {
            id: self.id,
            from_wallet: self.from_wallet.clone(),
            to_address: self.to_address.clone(),
            amount: self.amount,
            memo: self.memo.clone(),
            tx_type: self.tx_type,
            status: self.status,
            approvals: clone_addresses(&self.approvals),
            created_at: self.created_at,
            executed_at: self.executed_at,
            requires_approval: self.requires_approval,
        }
    }
}

impl TransactionView {
    /// Whether the transfer's funds are still earmarked in its wallet: they
    /// are from its creation until it is executed.
    pub open spec fn is_open(self) -> bool {
        self.status != TxStatus::Executed
    }
}

} // verus!
