pub mod handlers;
pub mod models;
pub mod state;
