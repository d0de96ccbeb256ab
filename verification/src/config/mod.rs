pub mod settings;
