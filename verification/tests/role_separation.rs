use program_escrow::ProgramEscrowContract;

#[test]
fn test_role_management_schema_initialization() {
    let mut contract = ProgramEscrowContract::new();
    contract.initialize_contract("GADMIN".to_string(), 0);
    let schema_version = contract.get_role_management_schema_version();
    assert_eq!(schema_version, 1);
}

#[test]
fn test_admin_proposal_basic() {
    let mut contract = ProgramEscrowContract::new();
    let admin = "GADMIN".to_string();
    let new_admin = "GNEWADMIN".to_string();
    let mut events = 0;
    let _initialized = contract.initialize_contract(admin.clone(), 0);
    events += 1;
    let _proposed = contract.propose_admin(admin.clone(), new_admin.clone(), 0).unwrap();
    events += 1;
    assert!(events >= 2); // init + propose
}

#[test]
fn test_controller_proposal_basic() {
    let mut contract = ProgramEscrowContract::new();
    let admin = "GADMIN".to_string();
    let token_id = "CTOKEN".to_string();
    let program_id = "test-program".to_string();
    let new_controller = "GNEWCONTROLLER".to_string();
    let mut events = 0;
    let (_data, _initialized, _published) = contract.init_program(program_id.clone(), admin.clone(), token_id, 0);
    events += 2;
    let (_data, _proposed) = contract
        .propose_controller(program_id.clone(), admin.clone(), new_controller.clone(), 0)
        .unwrap();
    events += 1;
    assert!(events >= 3); // init + publish + propose
}
