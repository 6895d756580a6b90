//! Verified transfer rules of the XCM cross-chain transfer pallets.
pub mod bridge;
pub mod migrations;
pub mod pallet;
pub mod runs;
pub mod traits;
pub mod transact;
pub mod types;
pub mod xcm_adapter;
pub mod xcm_helper;
