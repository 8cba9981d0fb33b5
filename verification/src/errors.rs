use vstd::prelude::*;

verus! {

/// Error returned by the challenge validator.  The message names the first
/// violated constraint, in the validator's fixed check order.
#[derive(Debug)]
pub struct ParseRequestError {
    pub m: String,
}

impl ParseRequestError {
    /// The message naming the violated constraint.
    pub fn message(&self) -> (r: String)
        ensures
            r@ == self.m@,
    {
        self.m.clone()
    }
}

impl Clone for ParseRequestError {
    fn clone(&self) -> (r: Self)
        ensures
            r == *self,
    {
        ParseRequestError { m: self.m.clone() }
    }
}

/// Coarse error classification handed to callers.  Validation, authorization,
/// state and funds errors are detected before any mutation; an external
/// service failure aborts the enclosing flow before anything is applied.
#[derive(Clone, Copy, Debug, PartialEq, Eq, Structural)]
pub enum CoreError {
    /// The addressed record does not exist.
    NotFound,
    /// The caller is not the actor this operation is reserved for.
    Forbidden,
    /// The record is not in the lifecycle state this operation needs.
    StateConflict,
    /// The caller's balance does not cover the requested amount.
    InsufficientFunds,
    /// Malformed or out-of-range input.
    Validation,
    /// The external game service or payment gateway failed mid-flow.
    ExternalService,
}

} // verus!
