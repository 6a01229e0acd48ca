//! `OptionT<M>`: a value that may be absent, nested inside an outer context `M`.
//!
//! The outer contexts served are `Option` and `Result`, whose transform, lift,
//! apply and sequence operations are those of the `higher` crate.

pub mod inner;
pub mod laws_over_option;
pub mod laws_over_result;
pub mod option;
pub mod outer;
pub mod over_option;
pub mod over_result;

pub use option::OptionT;
