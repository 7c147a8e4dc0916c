//! The entity stores and what they share.

pub mod store;
pub mod token_store;
pub mod user_store;
