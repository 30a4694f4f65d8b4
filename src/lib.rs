pub mod auth;
pub mod channel;
pub mod conversations;
pub mod error;
pub mod frame;
pub mod friends;
pub mod history;
pub mod ids;
pub mod profile;
pub mod registry;
pub mod session;
pub mod store;
