pub mod errors;
pub mod random;
pub mod text;
pub mod utils;
