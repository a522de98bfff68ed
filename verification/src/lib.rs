//! A small deterministic state-transition runtime.
//!
//! Independent state modules ("pallets") each own one slice of the state; a
//! runtime composes them, routes calls to the pallet that owns the operation
//! and applies ordered blocks of extrinsics to the composed state.

pub mod balances;
pub mod numeric;
pub mod proof_of_existance;
pub mod runtime;
pub mod storage;
pub mod support;
pub mod system;
pub mod types;

pub use runtime::{Runtime, RuntimeCall};
