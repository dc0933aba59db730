//! Process selection, library list and the decision logic of a remote library loader.
//!
//! The operating-system work (process enumeration, icon extraction, cross-process memory
//! operations) is performed by the caller; this library holds the state it feeds and the
//! rules that decide what happens next.

mod clock;

pub mod config;
pub mod dll_manager;
pub mod icon;
pub mod injector;
pub mod injector_app;
pub mod pipeline;
pub mod process;
pub mod search;
pub mod toast;
