//! The one way in which a diff can fail.

use vstd::prelude::*;

verus! {

/// A comparison met a shape that it cannot look into.
#[derive(Debug)]
pub enum DiffError {
    /// A path item is given as a reference, which the engine does not resolve.
    UnresolvedReference { reference: String },
}

/// The mathematical content of a [`DiffError`].
pub enum DiffErrorView {
    UnresolvedReference { reference: Seq<char> },
}

impl View for DiffError {
    type V = DiffErrorView;

    open spec fn view(&self) -> DiffErrorView {
        match *self {
            DiffError::UnresolvedReference { reference } => DiffErrorView::UnresolvedReference {
                reference: reference@,
            },
        }
    }
}

/// The view of the outcome of a diff that can fail.
pub open spec fn outcome_of<D: View>(outcome: Result<D, DiffError>) -> Result<D::V, DiffErrorView> {
    match outcome {
        Ok(diff) => Ok(diff@),
        Err(error) => Err(error@),
    }
}

impl DiffError {
    /// The reference that could not be resolved.
    pub fn reference(&self) -> (reference: &String)
        ensures
            self@ == (DiffErrorView::UnresolvedReference { reference: reference@ }),
    {
        match self {
            DiffError::UnresolvedReference { reference } => reference,
        }
    }
}

} // verus!
