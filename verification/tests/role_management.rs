use program_escrow::{
    ContractError, PayoutKeyRotationError, ProgramEscrowContract, RoleManagementConfig,
    RoleTransitionState, MAX_ROLE_TRANSITION_PERIOD, ROLE_EVENT_VERSION,
    ROLE_MANAGEMENT_SCHEMA_VERSION_V1, ROTATION_TIMELOCK_DELAY,
};

fn s(v: &str) -> String {
    v.to_string()
}

fn initialized() -> ProgramEscrowContract {
    let mut c = ProgramEscrowContract::new();
    c.initialize_contract(s("GADMIN"), 0);
    c
}

fn with_program() -> ProgramEscrowContract {
    let mut c = initialized();
    c.init_program(s("prog-a"), s("GKEYA"), s("CTOKEN"), 0);
    c.init_program(s("prog-b"), s("GKEYB"), s("CTOKEN"), 0);
    c
}

#[test]
fn error_codes_match_the_documented_table() {
    let table = [
        (ContractError::Unauthorized, 1),
        (ContractError::AdminRotationInProgress, 1200),
        (ContractError::NoAdminRotationInProgress, 1201),
        (ContractError::InvalidAdminRotationState, 1202),
        (ContractError::ControllerRotationInProgress, 1203),
        (ContractError::NoControllerRotationInProgress, 1204),
        (ContractError::InvalidControllerRotationState, 1205),
        (ContractError::RoleTransitionExpired, 1206),
        (ContractError::InvalidRoleProposal, 1207),
        (ContractError::RoleRotationNotAllowed, 1208),
        (ContractError::RotationTimelockActive, 1209),
    ];
    for (e, code) in table.iter() {
        assert_eq!(e.code(), *code);
    }
    for (a, _) in table.iter() {
        for (b, _) in table.iter() {
            if a != b {
                assert_ne!(a.code(), b.code());
            }
        }
    }
}

#[test]
fn rotation_error_messages() {
    assert_eq!(PayoutKeyRotationError::Unauthorized.message(), "Unauthorized");
    assert_eq!(PayoutKeyRotationError::InvalidNonce.message(), "Invalid nonce");
}

#[test]
fn constants_have_documented_values() {
    assert_eq!(ROTATION_TIMELOCK_DELAY, 86_400);
    assert_eq!(MAX_ROLE_TRANSITION_PERIOD, 2_592_000);
    assert_eq!(ROLE_MANAGEMENT_SCHEMA_VERSION_V1, 1);
}

#[test]
fn default_config_allows_rotation_for_thirty_days() {
    let c = RoleManagementConfig::default();
    assert!(c.rotation_enabled);
    assert_eq!(c.max_transition_period, MAX_ROLE_TRANSITION_PERIOD);
    assert!(c.emergency_blocks_rotations);
}

#[test]
fn fresh_contract_has_no_schema_and_standard_config() {
    let c = ProgramEscrowContract::new();
    assert_eq!(c.get_role_management_schema_version(), 0);
    assert_eq!(c.get_role_management_config(), RoleManagementConfig::default());
    assert_eq!(c.get_admin(), None);
}

#[test]
fn initialization_keeps_an_existing_schema_and_config() {
    let mut c = ProgramEscrowContract::new();
    let custom = RoleManagementConfig {
        rotation_enabled: false,
        max_transition_period: 10,
        emergency_blocks_rotations: false,
    };
    c.schema_version = Some(7);
    c.config = Some(custom);
    c.initialize_contract(s("GADMIN"), 0);
    assert_eq!(c.get_admin(), Some(s("GADMIN")));
    assert_eq!(c.get_role_management_schema_version(), 7);
    assert_eq!(c.get_role_management_config(), custom);
}

#[test]
fn propose_admin_records_the_transition() {
    let mut c = initialized();
    let event = c.propose_admin(s("GADMIN"), s("GNEW"), 500).unwrap();
    assert_eq!(event.version, ROLE_EVENT_VERSION);
    assert_eq!(event.timestamp, 500);
    let t = c.pending_admin.as_ref().unwrap();
    assert_eq!(t.proposer, "GADMIN");
    assert_eq!(t.proposed_role, "GNEW");
    assert_eq!(t.proposed_at, 500);
    assert_eq!(t.deadline, 500 + MAX_ROLE_TRANSITION_PERIOD);
    assert_eq!(t.nonce, 0);
    assert_eq!(c.role_nonce, 1);
    assert_eq!(c.get_admin(), Some(s("GADMIN")));
}

#[test]
fn proposing_the_current_admin_is_invalid() {
    let mut c = initialized();
    assert_eq!(c.propose_admin(s("GADMIN"), s("GADMIN"), 0).err(), Some(ContractError::InvalidRoleProposal));
    assert!(c.pending_admin.is_none());
}

#[test]
fn second_admin_proposal_is_refused() {
    let mut c = initialized();
    assert!(c.propose_admin(s("GADMIN"), s("GNEW"), 0).is_ok());
    assert_eq!(c.propose_admin(s("GADMIN"), s("GOTHER"), 1).err(), Some(ContractError::AdminRotationInProgress));
    assert_eq!(c.pending_admin.as_ref().unwrap().proposed_role, "GNEW");
}

#[test]
fn read_only_mode_blocks_proposals() {
    let mut c = with_program();
    c.read_only = true;
    assert_eq!(c.ensure_role_rotation_allowed(), Err(ContractError::RoleRotationNotAllowed));
    assert_eq!(c.propose_admin(s("GADMIN"), s("GNEW"), 0).err(), Some(ContractError::RoleRotationNotAllowed));
    assert_eq!(
        c.propose_controller(s("prog-a"), s("GKEYA"), s("GNEW"), 0).err(),
        Some(ContractError::RoleRotationNotAllowed)
    );
}

#[test]
fn disabled_rotation_blocks_proposals() {
    let mut c = initialized();
    c.config = Some(RoleManagementConfig {
        rotation_enabled: false,
        max_transition_period: MAX_ROLE_TRANSITION_PERIOD,
        emergency_blocks_rotations: true,
    });
    assert_eq!(c.propose_admin(s("GADMIN"), s("GNEW"), 0).err(), Some(ContractError::RoleRotationNotAllowed));
}

#[test]
fn acceptance_after_the_transition_period_is_expired() {
    let mut c = initialized();
    assert!(c.propose_admin(s("GADMIN"), s("GNEW"), 1_000).is_ok());
    let late = 1_000 + MAX_ROLE_TRANSITION_PERIOD + 1;
    assert_eq!(c.accept_admin(s("GNEW"), late).err(), Some(ContractError::RoleTransitionExpired));
    let event = c.accept_admin(s("GNEW"), 1_000 + MAX_ROLE_TRANSITION_PERIOD).unwrap();
    assert_eq!(event.previous_admin, "GADMIN");
    assert_eq!(event.new_admin, "GNEW");
    assert_eq!(c.get_admin(), Some(s("GNEW")));
    assert!(c.pending_admin.is_none());
}

#[test]
fn acceptance_one_second_early_is_refused() {
    let mut c = initialized();
    assert!(c.propose_admin(s("GADMIN"), s("GNEW"), 1_000).is_ok());
    assert_eq!(
        c.accept_admin(s("GNEW"), 1_000 + ROTATION_TIMELOCK_DELAY - 1).err(),
        Some(ContractError::RotationTimelockActive)
    );
    assert_eq!(c.get_admin(), Some(s("GADMIN")));
}

#[test]
fn acceptance_before_the_proposal_time_is_refused() {
    let mut c = initialized();
    assert!(c.propose_admin(s("GADMIN"), s("GNEW"), 1_000_000).is_ok());
    assert_eq!(c.accept_admin(s("GNEW"), 5).err(), Some(ContractError::RotationTimelockActive));
}

#[test]
fn deadline_is_capped_at_the_largest_time() {
    let mut c = initialized();
    assert!(c.propose_admin(s("GADMIN"), s("GNEW"), u64::MAX - 10).is_ok());
    assert_eq!(c.pending_admin.as_ref().unwrap().deadline, u64::MAX);
    assert_eq!(c.accept_admin(s("GNEW"), u64::MAX).err(), Some(ContractError::RotationTimelockActive));
}

#[test]
fn pending_admin_without_admin_is_an_invalid_state() {
    let mut c = ProgramEscrowContract::new();
    c.pending_admin = Some(RoleTransitionState {
        proposer: s("GOLD"),
        proposed_role: s("GNEW"),
        proposed_at: 0,
        deadline: u64::MAX,
        nonce: 0,
    });
    assert_eq!(
        c.accept_admin(s("GNEW"), ROTATION_TIMELOCK_DELAY).err(),
        Some(ContractError::InvalidAdminRotationState)
    );
}

#[test]
fn cancel_without_pending_admin_rotation_is_refused() {
    let mut c = initialized();
    assert_eq!(c.cancel_admin_rotation(s("GADMIN"), 0).err(), Some(ContractError::NoAdminRotationInProgress));
}

#[test]
fn cancel_reports_the_admin() {
    let mut c = initialized();
    assert!(c.propose_admin(s("GADMIN"), s("GNEW"), 0).is_ok());
    let event = c.cancel_admin_rotation(s("GADMIN"), 9).unwrap();
    assert_eq!(event.cancelled_by, "GADMIN");
    assert_eq!(event.timestamp, 9);
    assert!(c.pending_admin.is_none());
}

#[test]
fn controller_proposal_requires_controller_or_admin() {
    let mut c = with_program();
    assert_eq!(
        c.propose_controller(s("prog-a"), s("GSTRANGER"), s("GNEW"), 0).err(),
        Some(ContractError::Unauthorized)
    );
    assert!(c.propose_controller(s("prog-a"), s("GADMIN"), s("GNEW"), 0).is_ok());
}

#[test]
fn controller_proposal_rejects_current_controller_and_duplicates() {
    let mut c = with_program();
    assert_eq!(
        c.propose_controller(s("prog-a"), s("GKEYA"), s("GKEYA"), 0).err(),
        Some(ContractError::InvalidRoleProposal)
    );
    assert!(c.propose_controller(s("prog-a"), s("GKEYA"), s("GNEW"), 0).is_ok());
    assert_eq!(
        c.propose_controller(s("prog-a"), s("GKEYA"), s("GOTHER"), 0).err(),
        Some(ContractError::ControllerRotationInProgress)
    );
}

#[test]
fn controller_rotation_touches_only_its_program() {
    let mut c = with_program();
    assert!(c.propose_controller(s("prog-a"), s("GKEYA"), s("GNEW"), 0).is_ok());
    let (data, event) = c.accept_controller(s("prog-a"), s("GNEW"), ROTATION_TIMELOCK_DELAY).unwrap();
    assert_eq!(data.authorized_payout_key, "GNEW");
    assert_eq!(event.previous_controller, "GKEYA");
    assert_eq!(event.new_controller, "GNEW");
    assert_eq!(c.get_program(&s("prog-a")).unwrap().authorized_payout_key, "GNEW");
    assert_eq!(c.get_program(&s("prog-b")).unwrap().authorized_payout_key, "GKEYB");
    assert_eq!(
        c.accept_controller(s("prog-b"), s("GNEW"), ROTATION_TIMELOCK_DELAY).err(),
        Some(ContractError::NoControllerRotationInProgress)
    );
}

#[test]
fn controller_cancel_requires_controller_or_admin() {
    let mut c = with_program();
    assert!(c.propose_controller(s("prog-a"), s("GKEYA"), s("GNEW"), 0).is_ok());
    assert_eq!(
        c.cancel_controller_rotation(s("prog-a"), s("GSTRANGER"), 1).err(),
        Some(ContractError::Unauthorized)
    );
    let (data, event) = c.cancel_controller_rotation(s("prog-a"), s("GKEYA"), 1).unwrap();
    assert_eq!(data.authorized_payout_key, "GKEYA");
    assert_eq!(event.cancelled_by, "GKEYA");
}

#[test]
fn controller_acceptance_on_unknown_program_has_nothing_pending() {
    let mut c = with_program();
    assert_eq!(
        c.accept_controller(s("nope"), s("GNEW"), 0).err(),
        Some(ContractError::NoControllerRotationInProgress)
    );
    assert_eq!(
        c.cancel_controller_rotation(s("nope"), s("GADMIN"), 0).err(),
        Some(ContractError::NoControllerRotationInProgress)
    );
}

#[test]
fn rotation_nonce_advances_and_cannot_be_replayed() {
    let mut c = with_program();
    assert_eq!(c.get_rotation_nonce(&s("prog-a")), Some(0));
    let data = c.rotate_payout_key(s("prog-a"), s("GKEYA"), s("GK2"), 0).unwrap();
    assert_eq!(data.rotation_nonce, 1);
    assert_eq!(
        c.rotate_payout_key(s("prog-a"), s("GK2"), s("GK3"), 0).err(),
        Some(PayoutKeyRotationError::InvalidNonce)
    );
    assert_eq!(c.get_rotation_nonce(&s("prog-b")), Some(0));
    assert_eq!(c.get_rotation_nonce(&s("nope")), None);
}

#[test]
fn rotation_nonce_wraps_after_the_largest_value() {
    let mut c = with_program();
    c.programs[0].data.rotation_nonce = u64::MAX;
    let data = c.rotate_payout_key(s("prog-a"), s("GADMIN"), s("GK2"), u64::MAX).unwrap();
    assert_eq!(data.rotation_nonce, 0);
}

#[test]
fn delegate_grant_requires_controller_or_admin() {
    let mut c = with_program();
    assert_eq!(
        c.set_program_delegate(s("prog-a"), s("GSTRANGER"), s("GDEL"), 1).err(),
        Some(ContractError::Unauthorized)
    );
    assert!(c.set_program_delegate(s("prog-a"), s("GADMIN"), s("GDEL"), 3).is_ok());
    let grant = c.programs[0].delegate.as_ref().unwrap();
    assert_eq!(grant.delegate, "GDEL");
    assert_eq!(grant.permissions, 3);
}

#[test]
fn programs_are_registered_once() {
    let c = with_program();
    assert!(c.has_program(&s("prog-a")));
    assert!(!c.has_program(&s("prog-c")));
    let data = c.get_program(&s("prog-b")).unwrap();
    assert_eq!(data.program_id, "prog-b");
    assert_eq!(data.token_address, "CTOKEN");
    assert_eq!(data.rotation_nonce, 0);
}

#[test]
fn only_the_admin_may_propose_or_cancel() {
    let mut c = initialized();
    assert_eq!(
        c.propose_admin(s("GSTRANGER"), s("GNEW"), 0).err(),
        Some(ContractError::Unauthorized)
    );
    assert!(c.pending_admin.is_none());
    assert!(c.propose_admin(s("GADMIN"), s("GNEW"), 0).is_ok());
    assert_eq!(
        c.cancel_admin_rotation(s("GNEW"), 1).err(),
        Some(ContractError::Unauthorized)
    );
    assert!(c.pending_admin.is_some());
}

#[test]
fn only_the_proposed_admin_may_accept() {
    let mut c = initialized();
    assert!(c.propose_admin(s("GADMIN"), s("GNEW"), 0).is_ok());
    assert_eq!(
        c.accept_admin(s("GADMIN"), ROTATION_TIMELOCK_DELAY).err(),
        Some(ContractError::Unauthorized)
    );
    assert_eq!(c.get_admin(), Some(s("GADMIN")));
    assert!(c.accept_admin(s("GNEW"), ROTATION_TIMELOCK_DELAY).is_ok());
    assert_eq!(c.get_admin(), Some(s("GNEW")));
}

#[test]
fn only_the_proposed_controller_may_accept() {
    let mut c = with_program();
    assert!(c.propose_controller(s("prog-a"), s("GKEYA"), s("GNEW"), 0).is_ok());
    assert_eq!(
        c.accept_controller(s("prog-a"), s("GKEYA"), ROTATION_TIMELOCK_DELAY).err(),
        Some(ContractError::Unauthorized)
    );
    assert_eq!(
        c.accept_controller(s("prog-a"), s("GADMIN"), ROTATION_TIMELOCK_DELAY).err(),
        Some(ContractError::Unauthorized)
    );
    assert_eq!(c.get_program(&s("prog-a")).unwrap().authorized_payout_key, "GKEYA");
}

#[test]
fn initialization_announces_itself() {
    let mut c = ProgramEscrowContract::new();
    let event = c.initialize_contract(s("GADMIN"), 42);
    assert_eq!(event.version, ROLE_EVENT_VERSION);
    assert_eq!(event.admin, "GADMIN");
    assert_eq!(event.timestamp, 42);
    let (data, initialized, published) = c.init_program(s("prog-x"), s("GKEYX"), s("CTOKEN"), 43);
    assert_eq!(data.authorized_payout_key, "GKEYX");
    assert_eq!(initialized.program_id, "prog-x");
    assert_eq!(initialized.authorized_payout_key, "GKEYX");
    assert_eq!(initialized.token_address, "CTOKEN");
    assert_eq!(initialized.timestamp, 43);
    assert_eq!(published.program_id, "prog-x");
    assert_eq!(published.timestamp, 43);
}

#[test]
fn rotation_on_unknown_program_is_refused() {
    let mut c = with_program();
    assert_eq!(
        c.rotate_payout_key(s("nope"), s("GADMIN"), s("GK2"), 0).err(),
        Some(PayoutKeyRotationError::ProgramNotFound)
    );
    assert_eq!(PayoutKeyRotationError::ProgramNotFound.message(), "Program not found");
}
