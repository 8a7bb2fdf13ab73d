pub mod api;
pub mod cache;
pub mod database;
pub mod error;
pub mod handlers;
pub mod settings;
pub mod text;
