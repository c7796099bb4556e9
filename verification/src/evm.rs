//! The interpreter's and the primitives' types that pass through the hooks.
//!
//! The adapter never looks inside any of them: it hands them on. Each is
//! declared as an opaque type, so that contracts can say of a value of it
//! that it is the same as before and nothing more.

use alloy_primitives::{Address, Log, LogData, Uint};
use revm::interpreter::{
    CallInputs, CallOutcome, CreateInputs, CreateOutcome, EOFCreateInputs, Interpreter,
};
use revm::primitives::{EVMError, Env};
use revm::JournaledState;
use vstd::prelude::*;

verus! {

/// `alloy_primitives::Address`, a 20-byte account address.
#[verifier::external_type_specification]
#[verifier::external_body]
pub struct ExAddress(Address);

/// `alloy_primitives::Uint`, the fixed-width unsigned integer behind `U256`.
#[verifier::external_type_specification]
#[verifier::external_body]
pub struct ExUint<const BITS: usize, const LIMBS: usize>(Uint<BITS, LIMBS>);

/// `alloy_primitives::LogData`, the topics and data of a log record.
#[verifier::external_type_specification]
#[verifier::external_body]
pub struct ExLogData(LogData);

/// `alloy_primitives::Log`, a log record with its emitter.
#[verifier::external_type_specification]
#[verifier::external_body]
#[verifier::reject_recursive_types(T)]
pub struct ExLog<T>(Log<T>);

/// `revm::interpreter::Interpreter`, the state of one running frame.
#[verifier::external_type_specification]
#[verifier::external_body]
pub struct ExInterpreter(Interpreter);

/// `revm::interpreter::CallInputs`, a call request.
#[verifier::external_type_specification]
#[verifier::external_body]
pub struct ExCallInputs(CallInputs);

/// `revm::interpreter::CallOutcome`, the result of a call.
#[verifier::external_type_specification]
#[verifier::external_body]
pub struct ExCallOutcome(CallOutcome);

/// `revm::interpreter::CreateInputs`, a create request.
#[verifier::external_type_specification]
#[verifier::external_body]
pub struct ExCreateInputs(CreateInputs);

/// `revm::interpreter::CreateOutcome`, the result of a create, with the new
/// contract's address where one was assigned.
#[verifier::external_type_specification]
#[verifier::external_body]
pub struct ExCreateOutcome(CreateOutcome);

/// `revm::interpreter::EOFCreateInputs`, a create request in the EOF format.
#[verifier::external_type_specification]
#[verifier::external_body]
pub struct ExEOFCreateInputs(EOFCreateInputs);

/// `revm::primitives::Env`, the configuration, block and transaction record.
#[verifier::external_type_specification]
#[verifier::external_body]
pub struct ExEnv(Env);

/// `revm::primitives::EVMError`, a terminal error of an execution.
#[verifier::external_type_specification]
#[verifier::external_body]
#[verifier::reject_recursive_types(DBError)]
pub struct ExEVMError<DBError>(EVMError<DBError>);

/// `revm::JournaledState`, the state journal of the current transaction.
#[verifier::external_type_specification]
#[verifier::external_body]
pub struct ExJournaledState(JournaledState);

} // verus!
