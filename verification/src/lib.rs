//! Structured metadata for the shipment contract's error codes: the numeric
//! code exposed on-chain, a broad category, a retry posture and a short
//! description, for every contract error.

pub mod errors;
pub mod error_map;
pub mod properties;
