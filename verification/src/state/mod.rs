//! The state that the host sets up once.

pub mod init;
