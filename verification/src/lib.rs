//! Navigation, selection and viewport-synchronization engine for a
//! key-driven character-sheet editor.
//!
//! The crate keeps a scrolled window consistent with an editable,
//! mutable-length list under insertion, deletion and mode switching.
//! All state transitions are driven by discrete key events; terminal
//! rendering and file access live outside the library.

pub mod events;
pub mod lookup;
pub mod orchestrator;
pub mod player;
pub mod textbuf;
pub mod viewport;
