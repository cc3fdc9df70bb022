use custody::ledger::put_wallet;
use custody::{
    Address, CustodyContract, CustodyError, Guardian, SystemLimits, TxStatus, TxType, WalletInfo,
    WalletType,
};

fn party(key: &str) -> Address {
    Address::new(key.to_string())
}

fn guardian(key: &str, role: &str, is_active: bool) -> Guardian {
    Guardian {
        address: party(key),
        role: role.to_string(),
        is_active,
        daily_limit: 100000,
        monthly_limit: 1000000,
        approval_count: 0,
        last_approval: 0,
    }
}

fn three_guardians() -> Vec<Guardian> {
    vec![
        guardian("alice", "CEO", true),
        guardian("bob", "CFO", true),
        guardian("carol", "CTO", false),
    ]
}

fn limits() -> SystemLimits {
    SystemLimits {
        daily_limit: 100000,
        monthly_limit: 1000000,
        high_value_threshold: 1000,
        required_approvals: 2,
        cold_wallet_percentage: 95,
        hot_wallet_percentage: 5,
    }
}

fn funded(balance: i128) -> CustodyContract {
    let mut contract = CustodyContract::new();
    contract
        .initialize(three_guardians(), party("hot"), party("cold"), limits())
        .unwrap();
    put_wallet(
        &mut contract.wallets,
        WalletInfo {
            address: party("hot"),
            wallet_type: WalletType::Hot,
            balance,
            reserved_balance: 0,
            is_active: true,
        },
    );
    contract
}

fn create(contract: &mut CustodyContract, amount: i128, now: u64) -> Result<u64, CustodyError> {
    contract.create_transaction(
        party("hot"),
        party("payee"),
        amount,
        "memo".to_string(),
        TxType::Payment,
        now,
    )
}

#[test]
fn second_initialization_is_rejected() {
    let mut contract = funded(0);
    let before = contract.clone();
    assert_eq!(
        contract.initialize(three_guardians(), party("hot"), party("cold"), limits()),
        Err(CustodyError::AlreadyInitialized)
    );
    assert_eq!(contract, before);
    assert_eq!(
        contract.initialize(Vec::new(), party("x"), party("y"), limits()),
        Err(CustodyError::AlreadyInitialized)
    );
    assert_eq!(contract, before);
}

#[test]
fn wrong_number_of_guardians_is_rejected() {
    let mut contract = CustodyContract::new();
    let two = vec![guardian("alice", "CEO", true), guardian("bob", "CFO", true)];
    assert_eq!(
        contract.initialize(two, party("hot"), party("cold"), limits()),
        Err(CustodyError::InvalidConfiguration)
    );
    let mut four = three_guardians();
    four.push(guardian("dave", "COO", true));
    assert_eq!(
        contract.initialize(four, party("hot"), party("cold"), limits()),
        Err(CustodyError::InvalidConfiguration)
    );
    assert_eq!(
        contract.initialize(Vec::new(), party("hot"), party("cold"), limits()),
        Err(CustodyError::InvalidConfiguration)
    );
    assert_eq!(contract, CustodyContract::new());
    assert!(!contract.initialized);
}

#[test]
fn wallet_shares_must_add_up() {
    let mut contract = CustodyContract::new();
    let mut short = limits();
    short.hot_wallet_percentage = 4;
    assert_eq!(
        contract.initialize(three_guardians(), party("hot"), party("cold"), short),
        Err(CustodyError::InvalidConfiguration)
    );
    let mut huge = limits();
    huge.hot_wallet_percentage = u32::MAX;
    huge.cold_wallet_percentage = 101;
    assert!(!huge.check_shares());
    assert_eq!(
        contract.initialize(three_guardians(), party("hot"), party("cold"), huge),
        Err(CustodyError::InvalidConfiguration)
    );
    assert_eq!(contract, CustodyContract::new());
    let mut even = limits();
    even.hot_wallet_percentage = 50;
    even.cold_wallet_percentage = 50;
    assert!(even.check_shares());
    assert_eq!(
        contract.initialize(three_guardians(), party("hot"), party("cold"), even),
        Ok(())
    );
}

#[test]
fn nothing_works_before_initialization() {
    let mut contract = CustodyContract::new();
    assert_eq!(
        contract.check_initialized(),
        Err(CustodyError::NotInitialized)
    );
    assert_eq!(create(&mut contract, 10, 0), Err(CustodyError::NotInitialized));
    assert_eq!(
        contract.approve_transaction(party("alice"), 1, true, 0),
        Err(CustodyError::NotInitialized)
    );
    assert_eq!(
        contract.emergency_shutdown(party("alice"), true),
        Err(CustodyError::NotInitialized)
    );
    assert_eq!(contract, CustodyContract::new());
    assert!(!contract.is_emergency_mode());
    assert_eq!(contract.get_transaction_counter(), 0);
}

#[test]
fn amount_must_be_positive() {
    let mut contract = funded(10000);
    let before = contract.clone();
    assert_eq!(create(&mut contract, 0, 0), Err(CustodyError::InvalidAmount));
    assert_eq!(create(&mut contract, -1, 0), Err(CustodyError::InvalidAmount));
    assert_eq!(
        create(&mut contract, i128::MIN, 0),
        Err(CustodyError::InvalidAmount)
    );
    assert_eq!(contract, before);
}

#[test]
fn source_wallet_must_exist() {
    let mut contract = funded(10000);
    let before = contract.clone();
    assert_eq!(
        contract.create_transaction(
            party("elsewhere"),
            party("payee"),
            10,
            "memo".to_string(),
            TxType::Payment,
            0,
        ),
        Err(CustodyError::WalletNotFound)
    );
    assert_eq!(contract, before);
}

#[test]
fn amount_must_be_covered_by_the_balance() {
    let mut contract = funded(10000);
    let before = contract.clone();
    assert_eq!(
        create(&mut contract, 10001, 0),
        Err(CustodyError::InsufficientFunds)
    );
    assert_eq!(contract, before);
    assert_eq!(create(&mut contract, 10000, 0), Ok(1));
}

#[test]
fn rejections_come_in_order() {
    let mut contract = CustodyContract::new();
    assert_eq!(create(&mut contract, 0, 0), Err(CustodyError::NotInitialized));
    let mut contract = funded(10);
    assert_eq!(
        contract.create_transaction(
            party("elsewhere"),
            party("payee"),
            0,
            "memo".to_string(),
            TxType::Payment,
            0,
        ),
        Err(CustodyError::InvalidAmount)
    );
    let mut tight = limits();
    tight.daily_limit = 5;
    contract.system_limits = Some(tight);
    assert_eq!(
        create(&mut contract, 2000, 0),
        Err(CustodyError::InsufficientFunds)
    );
    contract.emergency_shutdown(party("alice"), true).unwrap();
    assert_eq!(create(&mut contract, 0, 0), Err(CustodyError::EmergencyActive));
}

#[test]
fn daily_limit_is_enforced() {
    let mut contract = funded(1_000_000);
    let mut tight = limits();
    tight.daily_limit = 5000;
    contract.system_limits = Some(tight);
    assert_eq!(create(&mut contract, 5001, 0), Err(CustodyError::LimitExceeded));
    assert_eq!(create(&mut contract, 5000, 0), Ok(1));
}

#[test]
fn monthly_limit_is_enforced() {
    let mut contract = funded(10_000_000);
    let mut tight = limits();
    tight.monthly_limit = 7000;
    contract.system_limits = Some(tight);
    let before = contract.clone();
    assert_eq!(create(&mut contract, 7001, 0), Err(CustodyError::LimitExceeded));
    assert_eq!(contract, before);
    assert_eq!(create(&mut contract, 7000, 0), Ok(1));
}

#[test]
fn small_hot_transfers_skip_the_limits() {
    let mut contract = funded(10000);
    let mut tight = limits();
    tight.daily_limit = 0;
    tight.monthly_limit = -5;
    contract.system_limits = Some(tight);
    assert_eq!(create(&mut contract, 1000, 0), Ok(1));
    assert_eq!(
        contract.get_transaction(1).unwrap().status,
        TxStatus::Executed
    );
    assert_eq!(create(&mut contract, 1001, 0), Err(CustodyError::LimitExceeded));
}

#[test]
fn approver_must_be_authorized() {
    let mut contract = funded(10000);
    create(&mut contract, 2000, 0).unwrap();
    let before = contract.clone();
    assert_eq!(
        contract.approve_transaction(party("alice"), 1, false, 0),
        Err(CustodyError::Unauthorized)
    );
    assert_eq!(
        contract.emergency_shutdown(party("alice"), false),
        Err(CustodyError::Unauthorized)
    );
    assert_eq!(contract, before);
    let mut fresh = CustodyContract::new();
    assert_eq!(
        fresh.approve_transaction(party("alice"), 1, false, 0),
        Err(CustodyError::Unauthorized)
    );
}

#[test]
fn approver_must_be_a_guardian() {
    let mut contract = funded(10000);
    create(&mut contract, 2000, 0).unwrap();
    let before = contract.clone();
    assert_eq!(
        contract.approve_transaction(party("mallory"), 1, true, 0),
        Err(CustodyError::NotAGuardian)
    );
    assert_eq!(
        contract.emergency_shutdown(party("mallory"), true),
        Err(CustodyError::NotAGuardian)
    );
    assert_eq!(contract, before);
}

#[test]
fn approver_must_be_active() {
    let mut contract = funded(10000);
    create(&mut contract, 2000, 0).unwrap();
    let before = contract.clone();
    assert_eq!(
        contract.approve_transaction(party("carol"), 1, true, 0),
        Err(CustodyError::GuardianInactive)
    );
    assert_eq!(
        contract.approve_transaction(party("carol"), 99, true, 0),
        Err(CustodyError::GuardianInactive)
    );
    assert_eq!(
        contract.emergency_shutdown(party("carol"), true),
        Err(CustodyError::GuardianInactive)
    );
    assert_eq!(contract, before);
    assert!(!contract.is_emergency_mode());
}

#[test]
fn approved_transaction_must_exist() {
    let mut contract = funded(10000);
    create(&mut contract, 2000, 0).unwrap();
    let before = contract.clone();
    assert_eq!(
        contract.approve_transaction(party("alice"), 0, true, 0),
        Err(CustodyError::TransactionNotFound)
    );
    assert_eq!(
        contract.approve_transaction(party("alice"), 2, true, 0),
        Err(CustodyError::TransactionNotFound)
    );
    assert_eq!(
        contract.approve_transaction(party("alice"), u64::MAX, true, 0),
        Err(CustodyError::TransactionNotFound)
    );
    assert_eq!(contract, before);
}

#[test]
fn second_approval_of_one_guardian_is_a_duplicate() {
    let mut contract = funded(10000);
    create(&mut contract, 2000, 0).unwrap();
    assert_eq!(
        contract.approve_transaction(party("alice"), 1, true, 10),
        Ok(false)
    );
    let before = contract.clone();
    assert_eq!(
        contract.approve_transaction(party("alice"), 1, true, 20),
        Err(CustodyError::DuplicateApproval)
    );
    assert_eq!(contract, before);
    assert_eq!(
        contract.get_guardian(party("alice")).unwrap().approval_count,
        1
    );
    assert_eq!(
        contract.approve_transaction(party("bob"), 1, true, 30),
        Ok(true)
    );
    let before = contract.clone();
    assert_eq!(
        contract.approve_transaction(party("alice"), 1, true, 40),
        Err(CustodyError::DuplicateApproval)
    );
    assert_eq!(
        contract.approve_transaction(party("bob"), 1, true, 40),
        Err(CustodyError::DuplicateApproval)
    );
    assert_eq!(contract, before);
}

#[test]
fn only_awaiting_transactions_take_approvals() {
    let mut contract = funded(10000);
    create(&mut contract, 500, 0).unwrap();
    let before = contract.clone();
    assert_eq!(
        contract.approve_transaction(party("alice"), 1, true, 0),
        Err(CustodyError::InvalidTransactionState)
    );
    assert_eq!(contract, before);

    let mut guardians = three_guardians();
    guardians[2].is_active = true;
    let mut contract = CustodyContract::new();
    contract
        .initialize(guardians, party("hot"), party("cold"), limits())
        .unwrap();
    put_wallet(
        &mut contract.wallets,
        WalletInfo {
            address: party("hot"),
            wallet_type: WalletType::Hot,
            balance: 10000,
            reserved_balance: 0,
            is_active: true,
        },
    );
    create(&mut contract, 2000, 0).unwrap();
    contract
        .approve_transaction(party("alice"), 1, true, 0)
        .unwrap();
    contract
        .approve_transaction(party("bob"), 1, true, 0)
        .unwrap();
    let before = contract.clone();
    assert_eq!(
        contract.approve_transaction(party("carol"), 1, true, 0),
        Err(CustodyError::InvalidTransactionState)
    );
    assert_eq!(contract, before);
    assert_eq!(contract.get_hot_balance(), 8000);
}

#[test]
fn emergency_blocks_creation_and_approval() {
    let mut contract = funded(10000);
    create(&mut contract, 2000, 0).unwrap();
    assert_eq!(contract.check_emergency_mode(), Ok(()));
    assert_eq!(contract.emergency_shutdown(party("bob"), true), Ok(()));
    assert!(contract.is_emergency_mode());
    assert_eq!(contract.emergency_initiator, Some(party("bob")));
    assert_eq!(
        contract.check_emergency_mode(),
        Err(CustodyError::EmergencyActive)
    );
    let before = contract.clone();
    assert_eq!(create(&mut contract, 10, 0), Err(CustodyError::EmergencyActive));
    assert_eq!(create(&mut contract, 0, 0), Err(CustodyError::EmergencyActive));
    assert_eq!(
        contract.approve_transaction(party("alice"), 1, true, 0),
        Err(CustodyError::EmergencyActive)
    );
    assert_eq!(
        contract.approve_transaction(party("mallory"), 77, true, 0),
        Err(CustodyError::EmergencyActive)
    );
    assert_eq!(contract, before);
    assert_eq!(contract.get_hot_balance(), 10000);
    assert!(contract.get_transaction(1).is_some());
    assert_eq!(contract.get_system_limits(), limits());
    assert_eq!(contract.emergency_shutdown(party("alice"), true), Ok(()));
    assert!(contract.is_emergency_mode());
    assert_eq!(contract.emergency_initiator, Some(party("alice")));
}
