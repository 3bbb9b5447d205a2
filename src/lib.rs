//! Coordination core for a macro-keypad, an assistant's lifecycle hooks and an
//! editor's terminals: the session store, the event reducer and the render
//! projection, each with its contract.

pub mod config;
pub mod policy;
pub mod protocol;
pub mod reducer;
pub mod render;
pub mod state;
pub mod strmap;
