//! The session engine: one state machine per peer, and the registry that
//! holds them.
pub mod manager;
pub mod session;

pub use manager::Command;
pub use manager::ConnectionManager;
pub use session::handle;
pub use session::Action;
pub use session::Event;
pub use session::LocalConfig;
pub use session::Session;
pub use session::State;
