//! One call of a hook on an observer of any type, and the statement that it
//! was made.
//!
//! A call through the observer interface tells the caller only what the
//! interface promises of every observer. Each function here makes one call
//! on an observer whose type is a parameter, which may be the trait object
//! itself, and says of what came back that this observer's own method gave
//! it, on these arguments. Where an argument is an exclusive reference, the
//! reference that the statement speaks of holds the value as it was before
//! the call and as it is after it.

use crate::context::InnerEvmContextWrap;
use crate::erased::{AnyBox, AnyRef};
use crate::inspector::{BoxedInspector, CustomizableInspector};
use alloy_primitives::{Address, Log, U256};
use revm::interpreter::{
    CallInputs, CallOutcome, CreateInputs, CreateOutcome, EOFCreateInputs, Interpreter,
};
use vstd::prelude::*;

verus! {

/// `observer`'s `as_any` returned `seen`.
#[verifier::inline]
pub open spec fn as_any_admits<T: CustomizableInspector + ?Sized>(observer: &T, seen: AnyRef<'_>) -> bool {
    call_ensures(T::as_any, (observer,), seen)
}

/// Calls `observer`'s `as_any`.
pub fn as_any<T: CustomizableInspector + ?Sized>(observer: &T) -> (seen: AnyRef<'_>)
    ensures
        as_any_admits(observer, seen),
{
    observer.as_any()
}

/// `observer`'s `into_box_any` returned `held`.
#[verifier::inline]
pub open spec fn into_box_any_admits<T: CustomizableInspector + ?Sized>(observer: Box<T>, held: AnyBox) -> bool {
    call_ensures(T::into_box_any, (observer,), held)
}

/// Calls `observer`'s `into_box_any`.
pub fn into_box_any<T: CustomizableInspector + ?Sized>(observer: Box<T>) -> (held: AnyBox)
    ensures
        into_box_any_admits(observer, held),
{
    observer.into_box_any()
}

/// `observer`'s `clone_box` returned `made`.
#[verifier::inline]
pub open spec fn clone_box_admits<T: CustomizableInspector + ?Sized>(observer: &T, made: BoxedInspector) -> bool {
    call_ensures(T::clone_box, (observer,), made)
}

/// Calls `observer`'s `clone_box`.
pub fn clone_box<T: CustomizableInspector + ?Sized>(observer: &T) -> (made: BoxedInspector)
    ensures
        clone_box_admits(observer, made),
{
    observer.clone_box()
}

/// `observer`'s `initialize_interp`, on this frame and this view, returned.
#[verifier::inline]
pub open spec fn initialize_interp_admits<T: CustomizableInspector + ?Sized>(
    observer: &mut T,
    interp: &mut Interpreter,
    context: InnerEvmContextWrap<'_, '_>,
) -> bool {
    call_ensures(T::initialize_interp, (observer, interp, context), ())
}

/// Calls `observer`'s `initialize_interp`.
pub fn initialize_interp<T: CustomizableInspector + ?Sized>(
    observer: &mut T,
    interp: &mut Interpreter,
    context: InnerEvmContextWrap<'_, '_>,
)
    ensures
        (exists|called: &mut T, frame: &mut Interpreter|
            #![trigger initialize_interp_admits(called, frame, context)]
            {
                &&& &*called == &*old(observer)
                &&& &*final(called) == &*final(observer)
                &&& *frame == *old(interp)
                &&& *final(frame) == *final(interp)
                &&& initialize_interp_admits(called, frame, context)
            }),
{
    observer.initialize_interp(interp, context);
}

/// `observer`'s `step`, on this frame and this view, returned.
#[verifier::inline]
pub open spec fn step_admits<T: CustomizableInspector + ?Sized>(
    observer: &mut T,
    interp: &mut Interpreter,
    context: InnerEvmContextWrap<'_, '_>,
) -> bool {
    call_ensures(T::step, (observer, interp, context), ())
}

/// Calls `observer`'s `step`.
pub fn step<T: CustomizableInspector + ?Sized>(
    observer: &mut T,
    interp: &mut Interpreter,
    context: InnerEvmContextWrap<'_, '_>,
)
    ensures
        (exists|called: &mut T, frame: &mut Interpreter|
            #![trigger step_admits(called, frame, context)]
            {
                &&& &*called == &*old(observer)
                &&& &*final(called) == &*final(observer)
                &&& *frame == *old(interp)
                &&& *final(frame) == *final(interp)
                &&& step_admits(called, frame, context)
            }),
{
    observer.step(interp, context);
}

/// `observer`'s `step_end`, on this frame and this view, returned.
#[verifier::inline]
pub open spec fn step_end_admits<T: CustomizableInspector + ?Sized>(
    observer: &mut T,
    interp: &mut Interpreter,
    context: InnerEvmContextWrap<'_, '_>,
) -> bool {
    call_ensures(T::step_end, (observer, interp, context), ())
}

/// Calls `observer`'s `step_end`.
pub fn step_end<T: CustomizableInspector + ?Sized>(
    observer: &mut T,
    interp: &mut Interpreter,
    context: InnerEvmContextWrap<'_, '_>,
)
    ensures
        (exists|called: &mut T, frame: &mut Interpreter|
            #![trigger step_end_admits(called, frame, context)]
            {
                &&& &*called == &*old(observer)
                &&& &*final(called) == &*final(observer)
                &&& *frame == *old(interp)
                &&& *final(frame) == *final(interp)
                &&& step_end_admits(called, frame, context)
            }),
{
    observer.step_end(interp, context);
}

/// `observer`'s `log`, on this frame, this view and this record, returned.
#[verifier::inline]
pub open spec fn log_admits<T: CustomizableInspector + ?Sized>(
    observer: &mut T,
    interp: &mut Interpreter,
    context: InnerEvmContextWrap<'_, '_>,
    log: &Log,
) -> bool {
    call_ensures(T::log, (observer, interp, context, log), ())
}

/// Calls `observer`'s `log`.
pub fn log<T: CustomizableInspector + ?Sized>(
    observer: &mut T,
    interp: &mut Interpreter,
    context: InnerEvmContextWrap<'_, '_>,
    log: &Log,
)
    ensures
        (exists|called: &mut T, frame: &mut Interpreter|
            #![trigger log_admits(called, frame, context, log)]
            {
                &&& &*called == &*old(observer)
                &&& &*final(called) == &*final(observer)
                &&& *frame == *old(interp)
                &&& *final(frame) == *final(interp)
                &&& log_admits(called, frame, context, log)
            }),
{
    observer.log(interp, context, log);
}

/// `observer`'s `call`, on this view and this request, returned `outcome`.
#[verifier::inline]
pub open spec fn call_admits<T: CustomizableInspector + ?Sized>(
    observer: &mut T,
    context: InnerEvmContextWrap<'_, '_>,
    inputs: &mut CallInputs,
    outcome: Option<CallOutcome>,
) -> bool {
    call_ensures(T::call, (observer, context, inputs), outcome)
}

/// Calls `observer`'s `call`.
pub fn call<T: CustomizableInspector + ?Sized>(
    observer: &mut T,
    context: InnerEvmContextWrap<'_, '_>,
    inputs: &mut CallInputs,
) -> (outcome: Option<CallOutcome>)
    ensures
        (exists|called: &mut T, request: &mut CallInputs|
            #![trigger call_admits(called, context, request, outcome)]
            {
                &&& &*called == &*old(observer)
                &&& &*final(called) == &*final(observer)
                &&& *request == *old(inputs)
                &&& *final(request) == *final(inputs)
                &&& call_admits(called, context, request, outcome)
            }),
{
    observer.call(context, inputs)
}

/// `observer`'s `call_end`, on this view, this request and this outcome,
/// returned `amended`.
#[verifier::inline]
pub open spec fn call_end_admits<T: CustomizableInspector + ?Sized>(
    observer: &mut T,
    context: InnerEvmContextWrap<'_, '_>,
    inputs: &CallInputs,
    outcome: CallOutcome,
    amended: CallOutcome,
) -> bool {
    call_ensures(T::call_end, (observer, context, inputs, outcome), amended)
}

/// Calls `observer`'s `call_end`.
pub fn call_end<T: CustomizableInspector + ?Sized>(
    observer: &mut T,
    context: InnerEvmContextWrap<'_, '_>,
    inputs: &CallInputs,
    outcome: CallOutcome,
) -> (amended: CallOutcome)
    ensures
        (exists|called: &mut T|
            #![trigger call_end_admits(called, context, inputs, outcome, amended)]
            {
                &&& &*called == &*old(observer)
                &&& &*final(called) == &*final(observer)
                &&& call_end_admits(called, context, inputs, outcome, amended)
            }),
{
    observer.call_end(context, inputs, outcome)
}

/// `observer`'s `create`, on this view and this request, returned `outcome`.
#[verifier::inline]
pub open spec fn create_admits<T: CustomizableInspector + ?Sized>(
    observer: &mut T,
    context: InnerEvmContextWrap<'_, '_>,
    inputs: &mut CreateInputs,
    outcome: Option<CreateOutcome>,
) -> bool {
    call_ensures(T::create, (observer, context, inputs), outcome)
}

/// Calls `observer`'s `create`.
pub fn create<T: CustomizableInspector + ?Sized>(
    observer: &mut T,
    context: InnerEvmContextWrap<'_, '_>,
    inputs: &mut CreateInputs,
) -> (outcome: Option<CreateOutcome>)
    ensures
        (exists|called: &mut T, request: &mut CreateInputs|
            #![trigger create_admits(called, context, request, outcome)]
            {
                &&& &*called == &*old(observer)
                &&& &*final(called) == &*final(observer)
                &&& *request == *old(inputs)
                &&& *final(request) == *final(inputs)
                &&& create_admits(called, context, request, outcome)
            }),
{
    observer.create(context, inputs)
}

/// `observer`'s `create_end`, on this view, this request and this outcome,
/// returned `amended`.
#[verifier::inline]
pub open spec fn create_end_admits<T: CustomizableInspector + ?Sized>(
    observer: &mut T,
    context: InnerEvmContextWrap<'_, '_>,
    inputs: &CreateInputs,
    outcome: CreateOutcome,
    amended: CreateOutcome,
) -> bool {
    call_ensures(T::create_end, (observer, context, inputs, outcome), amended)
}

/// Calls `observer`'s `create_end`.
pub fn create_end<T: CustomizableInspector + ?Sized>(
    observer: &mut T,
    context: InnerEvmContextWrap<'_, '_>,
    inputs: &CreateInputs,
    outcome: CreateOutcome,
) -> (amended: CreateOutcome)
    ensures
        (exists|called: &mut T|
            #![trigger create_end_admits(called, context, inputs, outcome, amended)]
            {
                &&& &*called == &*old(observer)
                &&& &*final(called) == &*final(observer)
                &&& create_end_admits(called, context, inputs, outcome, amended)
            }),
{
    observer.create_end(context, inputs, outcome)
}

/// `observer`'s `eofcreate`, on this view and this request, returned
/// `outcome`.
#[verifier::inline]
pub open spec fn eofcreate_admits<T: CustomizableInspector + ?Sized>(
    observer: &mut T,
    context: InnerEvmContextWrap<'_, '_>,
    inputs: &mut EOFCreateInputs,
    outcome: Option<CreateOutcome>,
) -> bool {
    call_ensures(T::eofcreate, (observer, context, inputs), outcome)
}

/// Calls `observer`'s `eofcreate`.
pub fn eofcreate<T: CustomizableInspector + ?Sized>(
    observer: &mut T,
    context: InnerEvmContextWrap<'_, '_>,
    inputs: &mut EOFCreateInputs,
) -> (outcome: Option<CreateOutcome>)
    ensures
        (exists|called: &mut T, request: &mut EOFCreateInputs|
            #![trigger eofcreate_admits(called, context, request, outcome)]
            {
                &&& &*called == &*old(observer)
                &&& &*final(called) == &*final(observer)
                &&& *request == *old(inputs)
                &&& *final(request) == *final(inputs)
                &&& eofcreate_admits(called, context, request, outcome)
            }),
{
    observer.eofcreate(context, inputs)
}

/// `observer`'s `eofcreate_end`, on this view, this request and this
/// outcome, returned `amended`.
#[verifier::inline]
pub open spec fn eofcreate_end_admits<T: CustomizableInspector + ?Sized>(
    observer: &mut T,
    context: InnerEvmContextWrap<'_, '_>,
    inputs: &EOFCreateInputs,
    outcome: CreateOutcome,
    amended: CreateOutcome,
) -> bool {
    call_ensures(T::eofcreate_end, (observer, context, inputs, outcome), amended)
}

/// Calls `observer`'s `eofcreate_end`.
pub fn eofcreate_end<T: CustomizableInspector + ?Sized>(
    observer: &mut T,
    context: InnerEvmContextWrap<'_, '_>,
    inputs: &EOFCreateInputs,
    outcome: CreateOutcome,
) -> (amended: CreateOutcome)
    ensures
        (exists|called: &mut T|
            #![trigger eofcreate_end_admits(called, context, inputs, outcome, amended)]
            {
                &&& &*called == &*old(observer)
                &&& &*final(called) == &*final(observer)
                &&& eofcreate_end_admits(called, context, inputs, outcome, amended)
            }),
{
    observer.eofcreate_end(context, inputs, outcome)
}

/// `observer`'s `selfdestruct`, told of this contract, this beneficiary and
/// this value, returned.
#[verifier::inline]
pub open spec fn selfdestruct_admits<T: CustomizableInspector + ?Sized>(
    observer: &mut T,
    contract: Address,
    target: Address,
    value: U256,
) -> bool {
    call_ensures(T::selfdestruct, (observer, contract, target, value), ())
}

/// Calls `observer`'s `selfdestruct`.
pub fn selfdestruct<T: CustomizableInspector + ?Sized>(
    observer: &mut T,
    contract: Address,
    target: Address,
    value: U256,
)
    ensures
        (exists|called: &mut T|
            #![trigger selfdestruct_admits(called, contract, target, value)]
            {
                &&& &*called == &*old(observer)
                &&& &*final(called) == &*final(observer)
                &&& selfdestruct_admits(called, contract, target, value)
            }),
{
    observer.selfdestruct(contract, target, value);
}

} // verus!
