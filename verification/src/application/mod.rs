pub mod dto;
pub mod idempotency;
