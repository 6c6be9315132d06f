//! The guards, each callable on its own.

pub mod address;
pub mod arithmetic;
pub mod authorization;
pub mod conservation;
pub mod freshness;
pub mod lifecycle;
pub mod record;
pub mod replay;
