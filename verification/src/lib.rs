//! Undo and redo history for a line-based text editor.
//!
//! The editor describes every change it makes as an [`Event`], collects the
//! events of one user action into a patch on an [`EventStack`], and later
//! takes a patch back off the stack and turns each event into the event that
//! undoes it with [`reverse`].

pub mod document;
pub mod event;
pub mod reverse;
pub mod stack;

pub use crate::document::{Direction, Position, Row};
pub use crate::event::{BankType, Event, EventView};
pub use crate::reverse::{inverse, invertible, line_below, reverse};
pub use crate::stack::{patch_view, EventStack, StackView};
