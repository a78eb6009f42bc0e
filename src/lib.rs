pub mod claims;
pub mod codec;
pub mod guard;
pub mod keys;
pub mod laws;
pub mod models;
pub mod password;
pub mod session;
pub mod store;
