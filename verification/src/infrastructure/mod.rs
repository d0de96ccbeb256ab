pub mod auth;
pub mod psp;
pub mod webhooks;
