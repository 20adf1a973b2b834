//! Core record-lifecycle logic of a blood-supply network.
//!
//! Two structurally parallel domains are tracked: physical blood units
//! donated by banks (`inventory`) and blood requests issued by hospitals
//! (`requests`). Each domain combines sequential identity allocation,
//! pure input validation, a status state machine with legal-transition
//! enforcement, and secondary indexes that stay consistent with the
//! record store.
//!
//! The host environment (caller authentication, the ledger clock, the
//! persistent key-value substrate and the event sink) is kept outside:
//! each operation receives the current ledger time as a plain argument,
//! caller authentication is a precondition of the surrounding host, and
//! the persisted state is carried explicitly by the contract structs.

pub mod error;
pub mod index;
pub mod inventory;
pub mod requests;
pub mod types;
pub mod validation;

pub use error::ContractError;
pub use types::{BloodStatus, BloodType, BloodUnit, BloodRequest, RequestStatus, UrgencyLevel};
pub use inventory::InventoryContract;
pub use requests::RequestContract;
