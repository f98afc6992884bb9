pub mod simple;
pub mod user;
