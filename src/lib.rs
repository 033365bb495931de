//! Digest handling for compiled shader containers: the fixed header that
//! starts every container, and the decisions taken around one validation.
pub mod error;
pub mod header;
pub mod signing;
