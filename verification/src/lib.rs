//! Scriptboard keeps a board of saved scripts, each with the interpreter that
//! runs it, its arguments and whether it needs administrator rights, and
//! decides how each is launched, how its output is gathered and what the
//! user is told when it ends.

pub mod store;
pub mod scripts;
pub mod notifications;
pub mod file_storage;
pub mod utils;
pub mod ui;
