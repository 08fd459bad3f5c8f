//! An operator's project manager behind a terminal tool: a command
//! registry and argument binder, an interactive session protocol, the
//! project lifecycle (create, promote, remove, activate) as verified step
//! machines, the sandbox-environment command plans, and the pipe-delimited
//! table and record formats they all share.

pub mod binder;
pub mod console;
pub mod lifecycle;
pub mod message;
pub mod project;
pub mod registry;
pub mod sandbox;
pub mod session;
pub mod strkit;
pub mod subenum;
pub mod table;

pub use message::Destination;
pub use message::Message;
pub use message::Server;
pub use project::Project;
pub use table::Table;
