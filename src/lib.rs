//! Error kinds reported by the contract program, and their encoding as
//! runtime error codes.

pub mod error;

pub use error::{ContractError, KIND_COUNT};
