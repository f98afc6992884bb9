pub mod models;
pub mod repository;
pub mod secret;
pub mod statement;
