//! Synchronisation and build orchestration for the OnBotJava web service of
//! an FTC robot controller: path mapping between the device and a local tree,
//! parsing of the device's listing and build-status replies, the request
//! shapes of its protocol, and the decision logic of each operation.

mod bytes;
pub mod engine;
pub mod listing;
pub mod monitor;
pub mod options;
pub mod paths;
pub mod protocol;
pub mod status;

pub use crate::options::Ftc;
