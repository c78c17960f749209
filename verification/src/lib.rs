//! Core model of a grid-based editor UI protocol client.
//!
//! The library receives typed redraw events from an editor process and keeps
//! the authoritative model of highlight attributes, character grids, popup
//! menu, command line and tab line, reconciling it into one consistent
//! snapshot at every flush boundary.

#![verifier::loop_isolation(false)]

pub mod cmdline;
pub mod color;
pub mod debounce;
pub mod event;
pub mod grid;
pub mod grids;
pub mod input;
pub mod popupmenu;
pub mod rpc;
pub mod state;
pub mod text;
