//! Launch rules of an editor extension that starts the Pinecone context
//! server: the extension's settings are read and validated, and a process
//! launch command (executable, arguments, environment) is produced from them.
//!
//! - [`json`]: what the settings value holds under a key.
//! - [`settings`]: the settings and how they are decoded.
//! - [`command`]: the launch command and how it is built.
//! - [`error`]: the failures and what is said of them.
//! - [`resolve`]: resolution, from the host's settings to the command.
//! - [`laws`]: what holds of resolution on every input.

pub mod command;
pub mod error;
pub mod json;
pub mod laws;
pub mod resolve;
pub mod settings;
