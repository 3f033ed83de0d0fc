//! Core engine of an interactive Gopher client: RFC 1436 item types,
//! lenient URL and menu parsing, navigable menu and text views, and the
//! navigation-stack controller that turns view actions into commands.

pub mod action;
pub mod gopher;
pub mod help;
pub mod menu;
pub mod strutil;
pub mod text;
pub mod ui;
pub mod url;

use vstd::prelude::*;

verus! {

/// How many lines paging keys jump by.
pub const SCROLL_LINES: usize = 15;

/// Maximum line width used when wrapping text views.
pub const MAX_COLS: usize = 77;

} // verus!
