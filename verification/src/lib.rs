//! Core of a terminal chat client's user interface: a tree of widgets
//! (session sidebar, message viewer, fps hint, key-press hint) rooted in a
//! composite window, with
//! - dispatch of terminal input events to the focused widget, bubbling
//!   unrecognized events up to the root's global handler,
//! - a blueprint collector that flattens the tree into one draw pass
//!   ordered by layer, and
//! - per-frame refresh of widget-local caches from the application model.
//!
//! Terminal input decoding and frame presentation are left to the caller:
//! the library consumes already-decoded events and produces an ordered list
//! of draw obligations.

pub mod action;
pub mod events;
pub mod layout;
pub mod models;
pub mod text;
pub mod ui_entities;
pub mod widgets;
