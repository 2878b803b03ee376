pub mod handlers;
pub mod state;
