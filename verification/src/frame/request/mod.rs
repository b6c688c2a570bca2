//! The messages that the driver sends.

pub mod batch;
pub mod execute;
pub mod prepare;
pub mod query;
pub mod startup;
