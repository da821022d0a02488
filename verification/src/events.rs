//! Events published by the role-management entry points.
use vstd::prelude::*;

verus! {

pub struct ContractInitializedEvent {
    pub version: u32,
    pub admin: String,
    pub timestamp: u64,
}

pub struct ProgramInitializedEvent {
    pub version: u32,
    pub program_id: String,
    pub authorized_payout_key: String,
    pub token_address: String,
    pub timestamp: u64,
}

/// Announces that a registered program is open for use.
pub struct ProgramPublishedEvent {
    pub version: u32,
    pub program_id: String,
    pub timestamp: u64,
}

pub struct AdminProposedEvent {
    pub version: u32,
    pub proposed_by: String,
    pub proposed_admin: String,
    pub timestamp: u64,
}

pub struct AdminAcceptedEvent {
    pub version: u32,
    pub previous_admin: String,
    pub new_admin: String,
    pub timestamp: u64,
}

pub struct AdminRotationCancelledEvent {
    pub version: u32,
    pub cancelled_by: String,
    pub timestamp: u64,
}

pub struct ControllerProposedEvent {
    pub version: u32,
    pub program_id: String,
    pub proposed_by: String,
    pub proposed_controller: String,
    pub timestamp: u64,
}

pub struct ControllerAcceptedEvent {
    pub version: u32,
    pub program_id: String,
    pub previous_controller: String,
    pub new_controller: String,
    pub timestamp: u64,
}

pub struct ControllerRotationCancelledEvent {
    pub version: u32,
    pub program_id: String,
    pub cancelled_by: String,
    pub timestamp: u64,
}

} // verus!
