//! The logic of a clipboard picker: what it shows, where it stands, and what it answers.

pub mod capture;
pub mod cli;
pub mod color;
pub mod focus;
pub mod observer;
pub mod opacity;
pub mod pin_icon;
pub mod placement;
pub mod presentation;
pub mod protocol;
pub mod render;
pub mod rows;
pub mod session;
pub mod text;
pub mod theme;
pub mod thumbnail;

use vstd::prelude::*;

verus! {

/// The version of the picker, as it is announced to the clipboard daemon.
pub const VERSION: &'static str = "0.2.0";

} // verus!
