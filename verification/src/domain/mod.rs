pub mod entities;
pub mod services;
pub mod value_objects;
