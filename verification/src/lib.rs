//! Role management for the program escrow contract: two-step rotation of the
//! contract admin and of each program's controller (its authorized payout
//! key), guarded by a 24-hour time-lock, plus direct payout-key rotation with
//! role-based access control and replay protection.
//!
//! The contract's storage is modelled by [`ProgramEscrowContract`]; every entry
//! point is a state transition over it whose result is pinned down by the
//! abstract model in [`model`]. Each entry point takes the account making the
//! call and decides whether that account may act. The host environment stays
//! with the caller: it checks that account's signature, hands in the ledger
//! timestamp as a plain value, persists the state and publishes the returned
//! events.

mod config;
mod contract;
mod error;
mod events;
pub mod laws;
pub mod model;
mod types;

pub use config::{
    DELEGATE_PERMISSION_REFUND, DELEGATE_PERMISSION_RELEASE, DELEGATE_PERMISSION_UPDATE_META,
    MAX_ROLE_TRANSITION_PERIOD, ROLE_EVENT_VERSION, ROLE_MANAGEMENT_SCHEMA_VERSION_V1,
    ROTATION_TIMELOCK_DELAY, RoleManagementConfig,
};
pub use contract::ProgramEscrowContract;
pub use error::{ContractError, PayoutKeyRotationError, error_code};
pub use events::{
    ContractInitializedEvent, ProgramInitializedEvent, ProgramPublishedEvent,
    AdminAcceptedEvent, AdminProposedEvent, AdminRotationCancelledEvent, ControllerAcceptedEvent,
    ControllerProposedEvent, ControllerRotationCancelledEvent,
};
pub use types::{DelegateGrant, ProgramData, ProgramRecord, RoleTransitionState};
