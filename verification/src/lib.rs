//! Invoice and payment logic of the Dodo billing service: the invoice state
//! machine, payment settlement and recovery decisions, idempotent replay,
//! webhook signing and retry scheduling, and configuration defaults.
pub mod application;
pub mod config;
pub mod domain;
pub mod infrastructure;
pub mod shared;
