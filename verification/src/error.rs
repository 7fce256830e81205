//! The ways in which a chart request can fail.

use vstd::prelude::*;

verus! {

/// Why a chart could not be had.
#[derive(Clone, Debug)]
pub enum Error {
    /// The request could not be set up.
    Initialize(String),
    /// The transport failed.
    Request(String),
    /// The reply is not a chart.
    Json(String),
}

} // verus!
