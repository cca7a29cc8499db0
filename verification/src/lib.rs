//! Lifecycle rules of a desktop shell that runs a background worker beside
//! its main window: which events end the application, and how the worker
//! that listens on the shell's port is found and terminated.

pub mod cleanup;
pub mod events;
pub mod killables;
pub mod settings;
pub mod text;
