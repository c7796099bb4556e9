//! The view of the host's execution state that a hook is given.

use revm::primitives::{EVMError, Env};
use revm::{Database, JournaledState};
use vstd::prelude::*;

verus! {

/// A failure of the backing state, as it travels through the error slot.
#[derive(Clone, Debug, PartialEq, Eq)]
pub struct DatabaseError {
    pub message: String,
}

/// Exclusive access to the backing state for the length of one hook call.
///
/// The accessor is a trait object of `revm::Database`, which Verus cannot
/// take in a signature. The struct carries it through verified code, which
/// never looks inside; an observer reaches the database through the field.
#[verifier::external_body]
pub struct StateAccessor<'a, 'b>(pub &'a mut (dyn Database<Error = DatabaseError> + 'b));

/// The part of the host's mutable execution state that a hook may touch,
/// borrowed for one hook call.
pub struct InnerEvmContextWrap<'a, 'b> {
    /// Configuration, block and transaction.
    pub env: &'b mut Box<Env>,
    /// The state journal of the current transaction.
    pub journaled_state: &'a mut JournaledState,
    /// The backing state.
    pub db: StateAccessor<'a, 'b>,
    /// The terminal error of the execution. The host reads it after every
    /// hook; an observer reports a fatal condition by writing it.
    pub error: &'b mut Result<(), EVMError<DatabaseError>>,
}

} // verus!
