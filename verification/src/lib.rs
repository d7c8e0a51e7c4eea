pub mod addr;
pub mod config;
pub mod connection;
pub mod error;
pub mod message;
pub mod node;
pub mod outside;
pub mod report;
pub mod state_dsct;

pub use addr::{InAddr, NetAddr, OutAddr};
pub use config::Config;
pub use error::{NodeError, WIRE_MESSAGE_RETRY_MAX};
pub use message::{InputOrMessage, InternalMessage, InternalMessageKind};
pub use node::{Hydrabadger, NodeView};
pub use state_dsct::StateDsct;
