pub mod cli;
pub mod launch;
pub mod layout;
pub mod pipeline;
pub mod platform;
pub mod store;
pub mod version;
