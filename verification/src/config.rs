use vstd::prelude::*;

verus! {

/// Version of the role-management storage schema written by this contract.
pub const ROLE_MANAGEMENT_SCHEMA_VERSION_V1: u32 = 1;

/// Longest time, in seconds, that a role proposal stays acceptable (30 days).
pub const MAX_ROLE_TRANSITION_PERIOD: u64 = 30 * 24 * 60 * 60;

/// Mandatory delay, in seconds, between proposing and accepting a rotation (24 hours).
pub const ROTATION_TIMELOCK_DELAY: u64 = 86_400;

/// Version tag carried by every role-management event.
pub const ROLE_EVENT_VERSION: u32 = 2;

/// Delegate permission bit: may release funds.
pub const DELEGATE_PERMISSION_RELEASE: u32 = 1;

/// Delegate permission bit: may refund.
pub const DELEGATE_PERMISSION_REFUND: u32 = 2;

/// Delegate permission bit: may update program metadata.
pub const DELEGATE_PERMISSION_UPDATE_META: u32 = 4;

/// Contract-wide switches for role rotation.
#[derive(Clone, Copy, Debug, PartialEq, Eq, Structural)]
pub struct RoleManagementConfig {
    pub rotation_enabled: bool,
    pub max_transition_period: u64,
    pub emergency_blocks_rotations: bool,
}

impl RoleManagementConfig {
    /// The configuration in force when none has been stored.
    pub open spec fn standard() -> RoleManagementConfig {
        RoleManagementConfig {
            rotation_enabled: true,
            max_transition_period: MAX_ROLE_TRANSITION_PERIOD,
            emergency_blocks_rotations: true,
        }
    }

    /// Rotation enabled, a 30-day transition period, and emergencies blocking rotations.
    pub fn default() -> (c: RoleManagementConfig)
        ensures
            c == RoleManagementConfig::standard(),
    {
        RoleManagementConfig {
            rotation_enabled: true,
            max_transition_period: MAX_ROLE_TRANSITION_PERIOD,
            emergency_blocks_rotations: true,
        }
    }
}

} // verus!
