use vstd::prelude::*;

verus! {

/// Errors returned by the role-management entry points.
#[derive(Clone, Copy, Debug, PartialEq, Eq, Structural)]
pub enum ContractError {
    Unauthorized,
    AdminRotationInProgress,
    NoAdminRotationInProgress,
    InvalidAdminRotationState,
    ControllerRotationInProgress,
    NoControllerRotationInProgress,
    InvalidControllerRotationState,
    RoleTransitionExpired,
    InvalidRoleProposal,
    RoleRotationNotAllowed,
    RotationTimelockActive,
}

/// The numeric code under which each error is reported to clients.
pub open spec fn error_code(e: ContractError) -> u32 {
    match e {
        ContractError::Unauthorized => 1,
        ContractError::AdminRotationInProgress => 1200,
        ContractError::NoAdminRotationInProgress => 1201,
        ContractError::InvalidAdminRotationState => 1202,
        ContractError::ControllerRotationInProgress => 1203,
        ContractError::NoControllerRotationInProgress => 1204,
        ContractError::InvalidControllerRotationState => 1205,
        ContractError::RoleTransitionExpired => 1206,
        ContractError::InvalidRoleProposal => 1207,
        ContractError::RoleRotationNotAllowed => 1208,
        ContractError::RotationTimelockActive => 1209,
    }
}

impl ContractError {
    /// The error's client-visible code.
    pub fn code(&self) -> (c: u32)
        ensures
            c == error_code(*self),
    {
        match self {
            ContractError::Unauthorized => 1,
            ContractError::AdminRotationInProgress => 1200,
            ContractError::NoAdminRotationInProgress => 1201,
            ContractError::InvalidAdminRotationState => 1202,
            ContractError::ControllerRotationInProgress => 1203,
            ContractError::NoControllerRotationInProgress => 1204,
            ContractError::InvalidControllerRotationState => 1205,
            ContractError::RoleTransitionExpired => 1206,
            ContractError::InvalidRoleProposal => 1207,
            ContractError::RoleRotationNotAllowed => 1208,
            ContractError::RotationTimelockActive => 1209,
        }
    }
}

/// Reasons for which a direct payout-key rotation is refused.
#[derive(Clone, Copy, Debug, PartialEq, Eq, Structural)]
pub enum PayoutKeyRotationError {
    /// The caller is neither the program's payout key nor the contract admin.
    Unauthorized,
    /// The supplied nonce is not the program's current rotation nonce.
    InvalidNonce,
    /// No program is registered under the given id.
    ProgramNotFound,
}

impl PayoutKeyRotationError {
    /// The message with which the contract aborts the call.
    pub fn message(&self) -> (m: &'static str)
        ensures
            *self == PayoutKeyRotationError::Unauthorized ==> m@ == "Unauthorized"@,
            *self == PayoutKeyRotationError::InvalidNonce ==> m@ == "Invalid nonce"@,
            *self == PayoutKeyRotationError::ProgramNotFound ==> m@ == "Program not found"@,
    {
        proof {
            reveal_strlit("Unauthorized");
            reveal_strlit("Invalid nonce");
            reveal_strlit("Program not found");
        }
        match self {
            PayoutKeyRotationError::Unauthorized => "Unauthorized",
            PayoutKeyRotationError::InvalidNonce => "Invalid nonce",
            PayoutKeyRotationError::ProgramNotFound => "Program not found",
        }
    }
}

} // verus!
