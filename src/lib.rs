//! A protocol engine for the FUSE and CUSE kernel wire protocol: the codec for
//! request and reply frames, the init handshake, and the server's routing
//! decisions. Reading and writing the kernel channel is left to the host.

pub mod attr;
pub mod cuse;
pub mod error;
pub mod fmt;
pub mod init;
pub mod node;
pub mod ops;
pub mod request;
pub mod response;
pub mod server;
pub mod wire;

pub use error::{Error, ErrorCode};
pub use node::{FileMode, FileType, NodeId, NodeName, ROOT_ID};
