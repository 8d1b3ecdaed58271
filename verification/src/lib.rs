//! The core of a terminal modal text editor: a line-addressable document
//! store shared by one or more views, each with its own cursor, viewport
//! and three-mode (Normal/Insert/Command) input state machine, plus
//! word-boundary motion analysis. Every operation carries a contract
//! verified by Verus; terminal I/O, the input pump and persistence live
//! outside the core, which only receives normalized events and yields
//! frames to paint.

pub mod coords;
pub mod errors;
pub mod extended_linked_list;
pub mod line_store;
pub mod document;
pub mod words;
pub mod input;
pub mod text_block;
pub mod pane;
pub mod chai;
pub mod editor;
pub mod laws;
