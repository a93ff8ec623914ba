//! The outcome payload: the two-variant value a child reports to its parent.
//!
//! A computation either succeeds with a value or fails with an error
//! description. By the time the outcome crosses the process boundary the
//! success value has been serialized to bytes and the description reduced to
//! its UTF-8 text, so both variants carry plain bytes here.

use vstd::prelude::*;

verus! {

/// Mathematical model of an outcome: which variant it is, and the bytes it
/// carries.
pub ghost enum OutcomeModel {
    /// The computation succeeded; the bytes are its serialized result value.
    Success(Seq<u8>),
    /// The computation failed; the bytes are the UTF-8 text of its error
    /// description.
    Failure(Seq<u8>),
}

/// The outcome of the child-side computation, as transported to the parent:
/// either a serialized success value or the UTF-8 text of an error
/// description.
pub enum Outcome {
    /// The computation succeeded; the bytes are its serialized result value.
    Success(Vec<u8>),
    /// The computation failed; the bytes are the UTF-8 text of its error
    /// description.
    Failure(Vec<u8>),
}

impl View for Outcome {
    type V = OutcomeModel;

    open spec fn view(&self) -> OutcomeModel {
        match self {
            Outcome::Success(payload) => OutcomeModel::Success(payload@),
            Outcome::Failure(description) => OutcomeModel::Failure(description@),
        }
    }
}

impl Outcome {
    /// True if this outcome reports a successful computation.
    pub fn is_success(&self) -> (r: bool)
        ensures
            r == (self@ is Success),
    {
        match self {
            Outcome::Success(_) => true,
            Outcome::Failure(_) => false,
        }
    }

    /// The bytes this outcome carries: the serialized value on success, the
    /// description text on failure.
    pub fn bytes(&self) -> (r: &Vec<u8>)
        ensures
            self@ is Success ==> r@ == self@->Success_0,
            self@ is Failure ==> r@ == self@->Failure_0,
    {
        match self {
            Outcome::Success(payload) => payload,
            Outcome::Failure(description) => description,
        }
    }
}

} // verus!
