use custody::ledger::{
    find_wallet, put_wallet, reserve, settle, total_reserved, wallets_distinct,
};
use custody::registry::{find_guardian, guardians_distinct, put_guardian, record_approval};
use custody::spending::{day_bucket, exceeds_limit, fits_bucket, month_bucket, record, spent};
use custody::types::{addresses_distinct, clone_addresses, contains_address};
use custody::{
    Address, CustodyContract, CustodyError, Guardian, SystemLimits, Transaction, TxStatus, TxType,
    WalletInfo, WalletType,
};
use std::collections::HashMap;

fn who(key: &str) -> Address {
    Address::new(key.to_string())
}

fn keeper(key: &str) -> Guardian {
    Guardian {
        address: who(key),
        role: "keeper".to_string(),
        is_active: true,
        daily_limit: 1,
        monthly_limit: 2,
        approval_count: 0,
        last_approval: 0,
    }
}

fn wallet(key: &str, balance: i128, reserved_balance: i128) -> WalletInfo {
    WalletInfo {
        address: who(key),
        wallet_type: WalletType::Hot,
        balance,
        reserved_balance,
        is_active: true,
    }
}

fn setup(balance: i128, daily_limit: i128, monthly_limit: i128) -> CustodyContract {
    let mut contract = CustodyContract::new();
    contract
        .initialize(
            vec![keeper("one"), keeper("two"), keeper("three")],
            who("hot"),
            who("cold"),
            SystemLimits {
                daily_limit,
                monthly_limit,
                high_value_threshold: 1000,
                required_approvals: 2,
                cold_wallet_percentage: 95,
                hot_wallet_percentage: 5,
            },
        )
        .unwrap();
    put_wallet(&mut contract.wallets, wallet("hot", balance, 0));
    contract
}

fn request(contract: &mut CustodyContract, amount: i128, now: u64) -> Result<u64, CustodyError> {
    contract.create_transaction(
        who("hot"),
        who("payee"),
        amount,
        "memo".to_string(),
        TxType::Payment,
        now,
    )
}

#[test]
fn addresses_are_equal_by_their_keys() {
    assert!(who("a").same_as(&who("a")));
    assert!(!who("a").same_as(&who("b")));
    assert!(!who("a").same_as(&who("")));
    assert_eq!(who("a").clone(), who("a"));
    assert_eq!(who("abc").key, "abc".to_string());
}

#[test]
fn address_lists_are_searched_and_copied() {
    let list = vec![who("a"), who("b"), who("c")];
    assert!(contains_address(&list, &who("a")));
    assert!(contains_address(&list, &who("c")));
    assert!(!contains_address(&list, &who("d")));
    assert!(!contains_address(&Vec::new(), &who("a")));
    assert_eq!(clone_addresses(&list), list);
    assert!(addresses_distinct(&list));
    assert!(addresses_distinct(&Vec::new()));
    assert!(!addresses_distinct(&vec![who("a"), who("b"), who("a")]));
}

#[test]
fn days_and_months_are_counted_from_zero() {
    assert_eq!(day_bucket(0), 0);
    assert_eq!(day_bucket(86399), 0);
    assert_eq!(day_bucket(86400), 1);
    assert_eq!(day_bucket(1_700_000_000), 19675);
    assert_eq!(month_bucket(0), 0);
    assert_eq!(month_bucket(86400 * 30 - 1), 0);
    assert_eq!(month_bucket(86400 * 30), 1);
    assert_eq!(month_bucket(1_700_000_000), 655);
    assert_eq!(day_bucket(u64::MAX), 213503982334601);
    assert_eq!(month_bucket(u64::MAX), 7116799411153);
}

#[test]
fn limits_are_compared_on_the_exact_sum() {
    assert!(!exceeds_limit(0, 100, 100));
    assert!(exceeds_limit(0, 101, 100));
    assert!(!exceeds_limit(60, 40, 100));
    assert!(exceeds_limit(60, 41, 100));
    assert!(exceeds_limit(i128::MAX, 1, i128::MAX));
    assert!(!exceeds_limit(i128::MAX - 1, 1, i128::MAX));
    assert!(!exceeds_limit(i128::MIN, -1, i128::MIN));
    assert!(exceeds_limit(1, 1, -5));
}

#[test]
fn buckets_start_at_zero_and_add_up() {
    let mut buckets: HashMap<u64, i128> = HashMap::new();
    assert_eq!(spent(&buckets, 7), 0);
    record(&mut buckets, 7, 30);
    assert_eq!(spent(&buckets, 7), 30);
    record(&mut buckets, 7, 12);
    assert_eq!(spent(&buckets, 7), 42);
    assert_eq!(spent(&buckets, 8), 0);
    assert_eq!(buckets.len(), 1);
    assert!(fits_bucket(&buckets, 7, i128::MAX - 42));
    assert!(!fits_bucket(&buckets, 7, i128::MAX - 41));
    assert!(fits_bucket(&buckets, 8, i128::MAX));
}

#[test]
fn registry_replaces_an_entry_with_the_same_address() {
    let mut guardians: Vec<Guardian> = Vec::new();
    put_guardian(&mut guardians, keeper("a"));
    put_guardian(&mut guardians, keeper("b"));
    assert_eq!(find_guardian(&guardians, &who("a")), Some(0));
    assert_eq!(find_guardian(&guardians, &who("b")), Some(1));
    assert_eq!(find_guardian(&guardians, &who("c")), None);
    let mut changed = keeper("a");
    changed.is_active = false;
    put_guardian(&mut guardians, changed.clone());
    assert_eq!(guardians, vec![changed, keeper("b")]);
    assert!(guardians_distinct(&guardians));
    assert!(!guardians_distinct(&vec![keeper("a"), keeper("a")]));
}

#[test]
fn approval_statistics_count_up() {
    let mut guardians = vec![keeper("a"), keeper("b")];
    record_approval(&mut guardians, 1, 500);
    record_approval(&mut guardians, 1, 900);
    assert_eq!(guardians[0], keeper("a"));
    assert_eq!(guardians[1].approval_count, 2);
    assert_eq!(guardians[1].last_approval, 900);
    assert_eq!(guardians[1].address, who("b"));
}

#[test]
fn reserving_earmarks_without_touching_the_balance() {
    let mut wallets = vec![wallet("w", 100, 10), wallet("v", 5, 0)];
    assert_eq!(reserve(&mut wallets, 0, 100), Ok(()));
    assert_eq!(wallets, vec![wallet("w", 100, 110), wallet("v", 5, 0)]);
    assert_eq!(
        reserve(&mut wallets, 1, 6),
        Err(CustodyError::InsufficientFunds)
    );
    assert_eq!(wallets, vec![wallet("w", 100, 110), wallet("v", 5, 0)]);
}

#[test]
fn settling_takes_the_amount_from_both_fields() {
    let mut wallets = vec![wallet("w", 100, 30), wallet("v", 5, 0)];
    settle(&mut wallets, 0, 30);
    assert_eq!(wallets, vec![wallet("w", 70, 0), wallet("v", 5, 0)]);
    assert_eq!(find_wallet(&wallets, &who("v")), Some(1));
    assert_eq!(find_wallet(&wallets, &who("u")), None);
    assert!(wallets_distinct(&wallets));
    assert!(!wallets_distinct(&vec![wallet("w", 1, 0), wallet("w", 2, 0)]));
}

#[test]
fn ledger_replaces_an_entry_with_the_same_address() {
    let mut wallets: Vec<WalletInfo> = Vec::new();
    put_wallet(&mut wallets, wallet("w", 1, 0));
    put_wallet(&mut wallets, wallet("v", 2, 0));
    put_wallet(&mut wallets, wallet("w", 3, 0));
    assert_eq!(wallets, vec![wallet("w", 3, 0), wallet("v", 2, 0)]);
}

fn transfer(id: u64, from: &str, amount: i128, status: TxStatus) -> Transaction {
    Transaction {
        id,
        from_wallet: who(from),
        to_address: who("payee"),
        amount,
        memo: "memo".to_string(),
        tx_type: TxType::Payment,
        status,
        approvals: Vec::new(),
        created_at: 0,
        executed_at: None,
        requires_approval: true,
    }
}

#[test]
fn earmarked_total_counts_what_is_not_executed() {
    let transactions = vec![
        transfer(1, "w", 10, TxStatus::AwaitingApproval),
        transfer(2, "w", 20, TxStatus::Executed),
        transfer(3, "v", 40, TxStatus::AwaitingApproval),
        transfer(4, "w", 80, TxStatus::Pending),
    ];
    assert_eq!(total_reserved(&transactions, &who("w")), Some(90));
    assert_eq!(total_reserved(&transactions, &who("v")), Some(40));
    assert_eq!(total_reserved(&transactions, &who("u")), Some(0));
    assert_eq!(total_reserved(&Vec::new(), &who("w")), Some(0));
    let huge = vec![
        transfer(1, "w", i128::MAX, TxStatus::AwaitingApproval),
        transfer(2, "w", 1, TxStatus::AwaitingApproval),
    ];
    assert_eq!(total_reserved(&huge, &who("w")), None);
}

#[test]
fn transfer_copies_are_equal() {
    let mut first = transfer(3, "w", 5, TxStatus::AwaitingApproval);
    first.approvals.push(who("one"));
    first.executed_at = Some(9);
    assert_eq!(first.clone(), first);
}

#[test]
fn spending_exactly_up_to_the_daily_limit_passes() {
    let mut contract = setup(1_000_000, 10_000, 1_000_000);
    assert_eq!(request(&mut contract, 4000, 100), Ok(1));
    contract.approve_transaction(who("one"), 1, true, 100).unwrap();
    contract.approve_transaction(who("two"), 1, true, 100).unwrap();
    assert_eq!(spent(&contract.daily_spent, 0), 4000);

    let before = contract.clone();
    assert_eq!(
        request(&mut contract, 6001, 200),
        Err(CustodyError::LimitExceeded)
    );
    assert_eq!(contract, before);
    assert_eq!(request(&mut contract, 6000, 200), Ok(2));
    assert_eq!(
        contract.get_transaction(2).unwrap().status,
        TxStatus::AwaitingApproval
    );
}

#[test]
fn a_new_day_starts_a_new_daily_bucket() {
    let mut contract = setup(1_000_000, 10_000, 15_000);
    request(&mut contract, 10_000, 86399).unwrap();
    contract.approve_transaction(who("one"), 1, true, 86399).unwrap();
    contract.approve_transaction(who("two"), 1, true, 86399).unwrap();
    assert_eq!(
        request(&mut contract, 1001, 86399),
        Err(CustodyError::LimitExceeded)
    );
    assert_eq!(request(&mut contract, 5000, 86400), Ok(2));
    assert_eq!(
        request(&mut contract, 5001, 86400),
        Err(CustodyError::LimitExceeded)
    );
    contract.approve_transaction(who("one"), 2, true, 86400).unwrap();
    contract.approve_transaction(who("two"), 2, true, 86400).unwrap();
    assert_eq!(spent(&contract.daily_spent, 0), 10_000);
    assert_eq!(spent(&contract.daily_spent, 1), 5000);
    assert_eq!(spent(&contract.monthly_spent, 0), 15_000);
    assert_eq!(
        request(&mut contract, 1001, 2 * 86400),
        Err(CustodyError::LimitExceeded)
    );
    assert_eq!(request(&mut contract, 1001, 30 * 86400), Ok(3));
}

#[test]
fn spending_is_recorded_when_a_transfer_is_executed() {
    let mut contract = setup(1_000_000, 10_000, 1_000_000);
    request(&mut contract, 3000, 0).unwrap();
    assert!(contract.daily_spent.is_empty());
    assert!(contract.monthly_spent.is_empty());
    contract.approve_transaction(who("one"), 1, true, 0).unwrap();
    assert!(contract.daily_spent.is_empty());
    contract
        .approve_transaction(who("two"), 1, true, 31 * 86400)
        .unwrap();
    assert_eq!(spent(&contract.daily_spent, 31), 3000);
    assert_eq!(spent(&contract.daily_spent, 0), 0);
    assert_eq!(spent(&contract.monthly_spent, 1), 3000);
    assert_eq!(spent(&contract.monthly_spent, 0), 0);
    assert_eq!(
        contract.get_transaction(1).unwrap().executed_at,
        Some(31 * 86400)
    );
    assert_eq!(contract.get_transaction(1).unwrap().created_at, 0);
}

#[test]
fn quorum_of_two_is_reached_by_the_second_guardian() {
    let mut contract = setup(10_000, 100_000, 1_000_000);
    request(&mut contract, 2000, 0).unwrap();
    assert_eq!(contract.check_approve(&who("one"), 1, true), Ok(false));
    assert_eq!(contract.approve_transaction(who("one"), 1, true, 1), Ok(false));
    assert_eq!(
        contract.get_transaction(1).unwrap().status,
        TxStatus::AwaitingApproval
    );
    assert_eq!(contract.get_hot_balance(), 10_000);
    assert_eq!(contract.check_approve(&who("three"), 1, true), Ok(true));
    assert_eq!(
        contract.approve_transaction(who("three"), 1, true, 2),
        Ok(true)
    );
    assert_eq!(
        contract.get_transaction(1).unwrap().status,
        TxStatus::Executed
    );
    assert_eq!(contract.get_hot_balance(), 8000);
    assert_eq!(contract.get_guardian(who("two")).unwrap().approval_count, 0);
}

#[test]
fn quorum_of_one_and_of_three() {
    let mut contract = setup(10_000, 100_000, 1_000_000);
    let mut limits = contract.get_system_limits();
    limits.required_approvals = 1;
    contract.system_limits = Some(limits);
    request(&mut contract, 2000, 0).unwrap();
    assert_eq!(contract.approve_transaction(who("two"), 1, true, 1), Ok(true));

    limits.required_approvals = 3;
    contract.system_limits = Some(limits);
    request(&mut contract, 2000, 0).unwrap();
    assert_eq!(contract.approve_transaction(who("one"), 2, true, 1), Ok(false));
    assert_eq!(contract.approve_transaction(who("two"), 2, true, 1), Ok(false));
    assert_eq!(
        contract.approve_transaction(who("three"), 2, true, 1),
        Ok(true)
    );
    assert_eq!(contract.get_hot_balance(), 6000);
}

#[test]
fn earmarked_funds_stay_within_the_balance_when_covered() {
    let mut contract = setup(10_000, 100_000, 1_000_000);
    request(&mut contract, 6000, 0).unwrap();
    request(&mut contract, 4000, 0).unwrap();
    assert_eq!(contract.wallets[0].reserved_balance, 10_000);
    assert_eq!(contract.wallets[0].balance, 10_000);
    contract.approve_transaction(who("one"), 2, true, 0).unwrap();
    contract.approve_transaction(who("two"), 2, true, 0).unwrap();
    assert_eq!(contract.wallets[0].reserved_balance, 6000);
    assert_eq!(contract.wallets[0].balance, 6000);
    assert!(contract.is_well_formed());
}

#[test]
fn creation_looks_at_the_balance_only() {
    let mut contract = setup(10_000, 100_000, 1_000_000);
    request(&mut contract, 6000, 0).unwrap();
    assert_eq!(request(&mut contract, 6000, 0), Ok(2));
    assert_eq!(contract.wallets[0].reserved_balance, 12_000);
    assert_eq!(contract.wallets[0].balance, 10_000);
    assert!(contract.is_well_formed());
    for id in [1u64, 2u64] {
        contract.approve_transaction(who("one"), id, true, 0).unwrap();
        contract.approve_transaction(who("two"), id, true, 0).unwrap();
    }
    assert_eq!(contract.wallets[0].reserved_balance, 0);
    assert_eq!(contract.wallets[0].balance, -2000);
    assert!(contract.is_well_formed());
}

#[test]
fn requests_beyond_the_integer_range_are_told_apart() {
    let mut contract = setup(i128::MAX, i128::MAX, i128::MAX);
    assert!(contract.can_create(&who("hot"), i128::MAX, 0));
    request(&mut contract, i128::MAX, 0).unwrap();
    assert!(!contract.can_create(&who("hot"), 2000, 0));
    assert!(contract.can_create(&who("hot"), 0, 0));
    assert!(contract.can_create(&who("nowhere"), 2000, 0));
    assert!(!contract.can_create(&who("hot"), 1000, 0));
    assert_eq!(contract.check_create(&who("hot"), 1000, 0), Ok(false));
    assert_eq!(contract.check_create(&who("hot"), 1001, 0), Ok(true));
    assert_eq!(
        contract.check_create(&who("hot"), 0, 0),
        Err(CustodyError::InvalidAmount)
    );

    contract.guardians[0].approval_count = u32::MAX;
    assert!(!contract.can_approve(&who("one"), 1, true, 0));
    assert!(contract.can_approve(&who("one"), 1, false, 0));
    assert!(contract.can_approve(&who("two"), 1, true, 0));
    contract.approve_transaction(who("two"), 1, true, 0).unwrap();
    contract.daily_spent.insert(5, 1);
    assert!(!contract.can_approve(&who("three"), 1, true, 5 * 86400));
    assert!(contract.can_approve(&who("three"), 1, true, 6 * 86400));
}

#[test]
fn tampered_states_are_found_out() {
    let good = setup(10_000, 100_000, 1_000_000);
    assert!(good.is_well_formed());

    let mut state = good.clone();
    state.transaction_counter = 1;
    assert!(!state.is_well_formed());

    let mut state = good.clone();
    state.wallets[0].reserved_balance = 1;
    assert!(!state.is_well_formed());

    let mut state = good.clone();
    state.wallets.push(wallet("hot", 0, 0));
    assert!(!state.is_well_formed());

    let mut state = good.clone();
    state.guardians.push(keeper("two"));
    assert!(!state.is_well_formed());

    let mut state = good.clone();
    state.system_limits = None;
    assert!(!state.is_well_formed());

    let mut state = good.clone();
    state.initialized = false;
    assert!(!state.is_well_formed());

    let mut state = good.clone();
    request(&mut state, 2000, 0).unwrap();
    assert!(state.is_well_formed());
    state.transactions[0].id = 2;
    assert!(!state.is_well_formed());
    state.transactions[0].id = 1;
    state.transactions[0].approvals = vec![who("one"), who("one")];
    assert!(!state.is_well_formed());
    state.transactions[0].approvals = vec![who("one")];
    assert!(state.is_well_formed());
    state.transactions[0].from_wallet = who("gone");
    assert!(!state.is_well_formed());
}

#[test]
fn an_approval_stays_whatever_follows() {
    let mut contract = setup(100_000, 100_000, 1_000_000);
    let mut limits = contract.get_system_limits();
    limits.required_approvals = 3;
    contract.system_limits = Some(limits);
    request(&mut contract, 2000, 0).unwrap();
    assert_eq!(contract.approve_transaction(who("one"), 1, true, 1), Ok(false));

    request(&mut contract, 700, 2).unwrap();
    request(&mut contract, 3000, 3).unwrap();
    assert_eq!(contract.approve_transaction(who("two"), 1, true, 4), Ok(false));
    assert_eq!(contract.approve_transaction(who("one"), 3, true, 5), Ok(false));
    assert_eq!(
        contract.initialize(Vec::new(), who("a"), who("b"), limits),
        Err(CustodyError::AlreadyInitialized)
    );

    let before = contract.clone();
    assert_eq!(
        contract.approve_transaction(who("one"), 1, true, 6),
        Err(CustodyError::DuplicateApproval)
    );
    assert_eq!(contract, before);

    contract.emergency_shutdown(who("three"), true).unwrap();
    let before = contract.clone();
    assert_eq!(
        contract.approve_transaction(who("one"), 1, true, 7),
        Err(CustodyError::EmergencyActive)
    );
    assert_eq!(contract, before);
    assert_eq!(
        contract.get_transaction(1).unwrap().approvals,
        vec![who("one"), who("two")]
    );
}

#[test]
fn stored_transfers_are_awaiting_or_executed() {
    let mut contract = setup(100_000, 100_000, 1_000_000);
    request(&mut contract, 10, 0).unwrap();
    request(&mut contract, 5000, 0).unwrap();
    request(&mut contract, 6000, 0).unwrap();
    contract.approve_transaction(who("one"), 2, true, 0).unwrap();
    contract.approve_transaction(who("two"), 2, true, 0).unwrap();
    contract.approve_transaction(who("two"), 3, true, 0).unwrap();
    let statuses: Vec<TxStatus> = contract
        .transactions
        .iter()
        .map(|transaction| transaction.status)
        .collect();
    assert_eq!(
        statuses,
        vec![
            TxStatus::Executed,
            TxStatus::Executed,
            TxStatus::AwaitingApproval
        ]
    );
    assert_eq!(contract.transactions[0].executed_at, Some(0));
    assert_eq!(contract.transactions[2].executed_at, None);
    assert_eq!(contract.get_transaction_counter(), 3);
    assert_eq!(contract.get_hot_balance(), 100_000 - 10 - 5000);
    assert_eq!(contract.wallets[0].reserved_balance, 6000);
}
