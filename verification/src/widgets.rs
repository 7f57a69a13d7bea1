//! The parts of the loader's window.

pub mod list;
pub mod topbar;
