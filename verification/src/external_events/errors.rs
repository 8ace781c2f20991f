//! The errors of the price reporters.

use vstd::prelude::*;

verus! {

/// Why a price reporter failed.
#[derive(Clone, Copy, Debug, PartialEq, Eq, Structural)]
pub enum ReporterError {
    /// Every receiver of a price stream has gone away.
    Disconnected,
}

} // verus!
