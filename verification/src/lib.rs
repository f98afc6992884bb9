pub mod api;
pub mod config;
pub mod error;
pub mod services;
pub mod text;
