//! Interactive text tool: a state machine that places, resizes and edits text
//! objects on a canvas, emitting its effects as an ordered queue of plain
//! commands for the host to apply.

pub mod geometry;
pub mod options;
pub mod content;
pub mod document;
pub mod action;
pub mod fsm;
pub mod session;
pub mod overlays;
pub mod tool;
