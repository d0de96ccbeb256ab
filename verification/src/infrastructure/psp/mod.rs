pub mod client;
pub mod mock;
pub mod models;
