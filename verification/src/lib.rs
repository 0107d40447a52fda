//! Ranks the packages a host package manager has installed by the time they
//! were last used, and drives their interactive removal.
//!
//! The crate is the verified core of a terminal dashboard: the package
//! records, the order the inventory is kept in, the scan and uninstall
//! engines as step functions, and the interaction state machine. Whatever
//! runs a process, looks at the file system or draws on a terminal is done by
//! the caller, which hands the results in as plain values and is told what
//! to do next.

pub mod app;
pub mod inventory;
pub mod layout;
pub mod manager;
pub mod package;
pub mod probe;
pub mod scanner;
pub mod text;
pub mod trusted;
pub mod uninstall;
pub mod view;
