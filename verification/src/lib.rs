//! Interactive log-browsing core: an incremental-filter selector, the pane
//! focus state machine that routes keystrokes, and the translation of
//! committed filter state into backend search parameters.

use vstd::prelude::*;

pub mod app;
pub mod config;
pub mod filter_field;
pub mod query;
pub mod text;

verus! {

/// Number of entries in the log-context action menu (copy, open in editor).
pub const CONTEXT_MENU_LEN: usize = 2;

} // verus!
