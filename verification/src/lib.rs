//! Deterministic state addresses for the entities of a ledger.

pub mod address;
pub mod digest;
pub mod error;
pub mod hex;
pub mod laws;

pub use crate::error::AddressingError;
pub use crate::hex::parse_hex;
pub use crate::address::compute_agent_address;
pub use crate::address::compute_contract_address;
pub use crate::address::compute_contract_registry_address;
pub use crate::address::compute_namespace_registry_address;
pub use crate::address::compute_org_address;
pub use crate::address::compute_smart_permission_address;
