//! A status-bar widget for a music player daemon: it renders the player's
//! state through a format template, replaces a broken connection, and maps
//! clicks and scrolls to player commands. The connection itself is driven by
//! the caller, which hands each query's outcome to the widget.
use vstd::prelude::*;

pub mod block;
pub mod fields;
pub mod laws;
pub mod status;
pub mod template;

verus! {

} // verus!
