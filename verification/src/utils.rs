//! Error messages. The server words them with the detail of the error in
//! debug builds, and with the message alone in release builds.

pub mod debug;
pub mod release;
