//! The closed error surface of the offset computation.

use vstd::prelude::*;

verus! {

/// Raised when a normal vector cannot be computed for a degenerate
/// (zero-length) edge.
#[derive(Debug, Copy, Clone, PartialEq, Eq, Structural)]
pub enum EdgeError {
    /// The edge's start and end coincide, so its direction — and hence any
    /// normal — is undefined.
    DegenerateEdge,
}

/// If offset computing fails this error is returned.
#[derive(Debug, Copy, Clone, PartialEq, Eq, Structural)]
pub enum OffsetError {
    /// This error can be produced when manipulating edges.
    EdgeError(EdgeError),
    /// The geometry value falls outside the closed set of supported variants.
    UnknownGeometry,
}

impl OffsetError {
    /// The inner edge error, if this error came from edge manipulation.
    pub fn source(&self) -> (r: Option<EdgeError>)
        ensures
            r matches Some(e) ==> *self == OffsetError::EdgeError(e),
            r is None ==> *self == OffsetError::UnknownGeometry,
    {
        match self {
            OffsetError::EdgeError(e) => Some(*e),
            OffsetError::UnknownGeometry => None,
        }
    }

    /// A short description of the error.
    pub fn message(&self) -> (r: &'static str)
        ensures
            *self == OffsetError::UnknownGeometry ==> r@ =~= "Unknown geometry"@,
            (*self matches OffsetError::EdgeError(_)) ==> r@ =~= "Edge error: degenerate edge"@,
    {
        match self {
            OffsetError::EdgeError(_) => {
                proof {
                    reveal_strlit("Edge error: degenerate edge");
                    reveal_strlit("Unknown geometry");
                }
                "Edge error: degenerate edge"
            },
            OffsetError::UnknownGeometry => {
                proof {
                    reveal_strlit("Unknown geometry");
                }
                "Unknown geometry"
            },
        }
    }
}

} // verus!
