use program_escrow::{
    ContractError, PayoutKeyRotationError, ProgramData, ProgramEscrowContract,
    DELEGATE_PERMISSION_REFUND, DELEGATE_PERMISSION_RELEASE, DELEGATE_PERMISSION_UPDATE_META,
    ROTATION_TIMELOCK_DELAY,
};

fn s(v: &str) -> String {
    v.to_string()
}

/// Storage of a contract with an admin and one program whose payout key
/// differs from the admin.
fn setup(program_id: &str) -> (ProgramEscrowContract, String, String, String) {
    let mut contract = ProgramEscrowContract::new();
    let admin = s("GADMIN");
    let payout_key = s("GPAYOUTKEY");
    contract.initialize_contract(admin.clone(), 0);
    contract.init_program(s(program_id), payout_key.clone(), s("CTOKEN"), 0);
    (contract, s(program_id), payout_key, admin)
}

/// Rotation as the contract runs it: a refused rotation aborts with its message.
fn rotate(
    contract: &mut ProgramEscrowContract,
    program_id: &str,
    caller: &str,
    new_key: &str,
    nonce: u64,
) -> ProgramData {
    match contract.rotate_payout_key(s(program_id), s(caller), s(new_key), nonce) {
        Ok(data) => data,
        Err(e) => panic!("{}", e.message()),
    }
}

fn nonce_of(contract: &ProgramEscrowContract, program_id: &str) -> u64 {
    match contract.get_rotation_nonce(&s(program_id)) {
        Some(n) => n,
        None => panic!("Program not found"),
    }
}

#[test]
fn test_rbac_payout_key_can_rotate() {
    let (mut contract, program_id, payout_key, _admin) = setup("rbac-prog");
    let new_key = "GNEWKEY";
    let nonce = nonce_of(&contract, &program_id);
    let data = rotate(&mut contract, &program_id, &payout_key, new_key, nonce);
    assert_eq!(data.authorized_payout_key, new_key);
}

#[test]
fn test_rbac_admin_can_rotate() {
    let (mut contract, program_id, _payout_key, admin) = setup("rbac-prog");
    let new_key = "GNEWKEY";
    let nonce = nonce_of(&contract, &program_id);
    let data = rotate(&mut contract, &program_id, &admin, new_key, nonce);
    assert_eq!(data.authorized_payout_key, new_key);
}

#[test]
#[should_panic(expected = "Unauthorized")]
fn test_rbac_unauthorized_caller_rejected() {
    let (mut contract, program_id, _payout_key, _admin) = setup("rbac-prog");
    let nonce = nonce_of(&contract, &program_id);
    rotate(&mut contract, &program_id, "GATTACKER", "GNEWKEY", nonce);
}

#[test]
#[should_panic(expected = "Unauthorized")]
fn test_rbac_old_key_cannot_rotate_after_replacement() {
    let (mut contract, program_id, old_key, _admin) = setup("rbac-prog");
    let nonce0 = nonce_of(&contract, &program_id);
    rotate(&mut contract, &program_id, &old_key, "GNEWKEY", nonce0);
    let nonce1 = nonce_of(&contract, &program_id);
    rotate(&mut contract, &program_id, &old_key, "GKEY3", nonce1);
}

#[test]
#[should_panic(expected = "Unauthorized")]
fn test_rbac_delegate_cannot_rotate() {
    let (mut contract, program_id, payout_key, _admin) = setup("rbac-prog");
    let delegate = "GDELEGATE";
    let granted = contract.set_program_delegate(
        s(&program_id),
        payout_key,
        s(delegate),
        DELEGATE_PERMISSION_RELEASE | DELEGATE_PERMISSION_REFUND | DELEGATE_PERMISSION_UPDATE_META,
    );
    assert!(granted.is_ok());
    let nonce = nonce_of(&contract, &program_id);
    rotate(&mut contract, &program_id, delegate, "GNEWKEY", nonce);
}

#[test]
#[should_panic(expected = "Program not found")]
fn test_rbac_rotation_on_missing_program_panics() {
    let mut contract = ProgramEscrowContract::new();
    contract.initialize_contract(s("GADMIN"), 0);
    rotate(&mut contract, "ghost-prog", "GCALLER", "GNEWKEY", 0);
}

#[test]
#[should_panic(expected = "Invalid nonce")]
fn test_rbac_wrong_nonce_rejected_for_authorized_caller() {
    let (mut contract, program_id, payout_key, _admin) = setup("rbac-prog");
    rotate(&mut contract, &program_id, &payout_key, "GNEWKEY", 99);
}

// ----- 24-hour time-lock on admin and controller rotation -----

#[test]
fn test_accept_admin_before_timelock_returns_error() {
    let (mut contract, _program_id, _payout_key, admin) = setup("timelock-prog");
    assert!(contract.propose_admin(admin.clone(), s("GNEWADMIN"), 1_000_000).is_ok());
    let result = contract.accept_admin(s("GNEWADMIN"), 1_000_000 + 3_600);
    assert_eq!(
        result.err(),
        Some(ContractError::RotationTimelockActive),
        "accept_admin must fail before 24h timelock expires"
    );
}

#[test]
fn test_accept_admin_after_timelock_succeeds() {
    let (mut contract, _program_id, _payout_key, admin) = setup("timelock-prog");
    assert!(contract.propose_admin(admin.clone(), s("GNEWADMIN"), 1_000_000).is_ok());
    assert!(contract.accept_admin(s("GNEWADMIN"), 1_000_000 + ROTATION_TIMELOCK_DELAY).is_ok());
}

#[test]
fn test_accept_admin_well_after_timelock_succeeds() {
    let (mut contract, _program_id, _payout_key, admin) = setup("timelock-prog");
    assert!(contract.propose_admin(admin.clone(), s("GNEWADMIN"), 1_000_000).is_ok());
    assert!(contract.accept_admin(s("GNEWADMIN"), 1_000_000 + 2 * ROTATION_TIMELOCK_DELAY).is_ok());
}

#[test]
fn test_admin_can_cancel_rotation_within_timelock() {
    let (mut contract, _program_id, _payout_key, admin) = setup("timelock-prog");
    assert!(contract.propose_admin(admin.clone(), s("GNEWADMIN"), 1_000_000).is_ok());
    assert!(contract.cancel_admin_rotation(admin.clone(), 1_000_000 + 3_600).is_ok());
    let result = contract.accept_admin(s("GNEWADMIN"), 1_000_000 + 3_600);
    assert_eq!(
        result.err(),
        Some(ContractError::NoAdminRotationInProgress),
        "accept_admin must fail after cancellation"
    );
}

#[test]
fn test_new_proposal_allowed_after_cancellation() {
    let (mut contract, _program_id, _payout_key, admin) = setup("timelock-prog");
    assert!(contract.propose_admin(admin.clone(), s("GNEWADMIN"), 1_000_000).is_ok());
    assert!(contract.cancel_admin_rotation(admin.clone(), 1_000_000).is_ok());
    assert!(contract.propose_admin(admin.clone(), s("GANOTHERADMIN"), 1_000_000).is_ok());
    assert!(contract.accept_admin(s("GANOTHERADMIN"), 1_000_000 + ROTATION_TIMELOCK_DELAY + 1).is_ok());
}

#[test]
fn test_accept_controller_before_timelock_returns_error() {
    let (mut contract, program_id, payout_key, _admin) = setup("timelock-prog");
    assert!(contract
        .propose_controller(s(&program_id), payout_key, s("GNEWCONTROLLER"), 2_000_000)
        .is_ok());
    let result = contract.accept_controller(s(&program_id), s("GNEWCONTROLLER"), 2_000_000 + 3_600);
    assert_eq!(
        result.err(),
        Some(ContractError::RotationTimelockActive),
        "accept_controller must fail before 24h timelock expires"
    );
}

#[test]
fn test_accept_controller_after_timelock_succeeds() {
    let (mut contract, program_id, payout_key, _admin) = setup("timelock-prog");
    let new_controller = "GNEWCONTROLLER";
    assert!(contract
        .propose_controller(s(&program_id), payout_key, s(new_controller), 2_000_000)
        .is_ok());
    let (data, _event) = contract
        .accept_controller(s(&program_id), s(new_controller), 2_000_000 + ROTATION_TIMELOCK_DELAY)
        .unwrap();
    assert_eq!(data.authorized_payout_key, new_controller);
}

#[test]
fn test_admin_can_cancel_controller_rotation_within_timelock() {
    let (mut contract, program_id, payout_key, admin) = setup("timelock-prog");
    assert!(contract
        .propose_controller(s(&program_id), payout_key, s("GNEWCONTROLLER"), 2_000_000)
        .is_ok());
    assert!(contract
        .cancel_controller_rotation(s(&program_id), admin, 2_000_000 + 3_600)
        .is_ok());
    let result = contract.accept_controller(s(&program_id), s("GNEWCONTROLLER"), 2_000_000 + 3_600);
    assert_eq!(
        result.err(),
        Some(ContractError::NoControllerRotationInProgress),
        "accept_controller must fail after cancellation"
    );
}

#[test]
fn test_accept_admin_no_pending_proposal_returns_error() {
    let (mut contract, _program_id, _payout_key, admin) = setup("timelock-prog");
    assert_eq!(
        contract.accept_admin(admin.clone(), 0).err(),
        Some(ContractError::NoAdminRotationInProgress)
    );
}

#[test]
fn test_accept_controller_no_pending_proposal_returns_error() {
    let (mut contract, program_id, payout_key, _admin) = setup("timelock-prog");
    assert_eq!(
        contract.accept_controller(s(&program_id), payout_key.clone(), 0).err(),
        Some(ContractError::NoControllerRotationInProgress)
    );
}
