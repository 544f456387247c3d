//! The player's stage-level faults. Every variant is caught at the reactor
//! boundary and becomes "discard state, await the next configuration"; the
//! reactor itself never terminates on one.

use vstd::prelude::*;

use crate::catalog::CatalogError;
use crate::session::SessionError;

verus! {

/// A fault of one pipeline stage.
#[derive(Debug)]
pub enum Error {
    /// Session establishment failed.
    Session(SessionError),
    /// Catalog acquisition failed.
    Catalog(CatalogError),
    /// A track subscription read failed.
    Protocol(String),
    /// The decoder refused its configuration or a frame.
    Pipeline(String),
}

} // verus!
