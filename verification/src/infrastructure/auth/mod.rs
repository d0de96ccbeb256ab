pub mod api_key_middleware;
pub mod argon;
