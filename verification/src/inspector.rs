//! The observer interface and the observer that does nothing.

use crate::context::InnerEvmContextWrap;
use crate::erased::{
    forget_box, forget_mut, forget_ref, forgets_box, forgets_mut, forgets_ref, AnyBox, AnyMut, AnyRef,
};
use alloy_primitives::{Address, Log, U256};
use revm::interpreter::{
    CallInputs, CallOutcome, CreateInputs, CreateOutcome, EOFCreateInputs, Interpreter,
};
use vstd::prelude::*;

verus! {

/// An owned observer behind the observer interface, as `clone_box` returns
/// it. Holds a `Box<dyn CustomizableInspector>`: the interface cannot name
/// its own trait object in a method, so the box travels in this struct.
#[verifier::external_body]
pub struct BoxedInspector(pub Box<dyn CustomizableInspector>);

/// Boxes a copy of the observer that does nothing and puts it into the
/// struct that `clone_box` returns: `Box::new` and the unsizing of the box
/// to a trait object. Nothing is claimed of the result. The impl of the
/// interface for this observer cannot call a function that is bound by the
/// interface, so its `clone_box` has this function of its own.
#[verifier::external_body]
pub(crate) fn packed(inspector: DefaultInspector) -> BoxedInspector {
    BoxedInspector(Box::new(inspector))
}

/// `copy` is what boxing `inspector` behind the observer interface gave.
pub closed spec fn boxes(inspector: DefaultInspector, copy: BoxedInspector) -> bool {
    call_ensures(packed, (inspector,), copy)
}

/// The points of execution at which an observer is called.
#[derive(Clone, Copy, Debug, PartialEq, Eq)]
pub enum Hook {
    InitializeInterp,
    Step,
    StepEnd,
    Log,
    Call,
    CallEnd,
    Create,
    CreateEnd,
    EofCreate,
    EofCreateEnd,
    SelfDestruct,
}

/// What an instrumentation module implements to be called at each stage of
/// execution.
///
/// Every hook has a default that does nothing, so an implementer overrides
/// only the hooks it needs. A hook reports no error of its own: an observer
/// that meets an unrecoverable condition writes it into the error slot of
/// the view, which the host reads after every hook.
///
/// The contracts bind an observer hook by hook: at each hook that it leaves
/// alone, and for as long as it does. Of a hook that an observer has made
/// its own, the interface promises that it leaves alone what it left alone
/// before, and that it writes the error slot only while the slot is empty:
/// the first error of an execution stands.
pub trait CustomizableInspector: Send + Sync + 'static {
    /// Whether the observer leaves `hook` alone: called there, it does what
    /// the default does. It changes nothing that it is handed, overrides no
    /// outcome, writes nothing through the view and stays as it is. An
    /// observer says so of the hooks that it does not override; of a hook of
    /// which it does not say so (the default), nothing is promised.
    open spec fn leaves(&self, hook: Hook) -> bool {
        false
    }

    /// The observer as a value of any type, for `downcast_ref`.
    fn as_any(&self) -> AnyRef<'_>;

    /// The boxed observer as a boxed value of any type, for `downcast`.
    fn into_box_any(self: Box<Self>) -> AnyBox;

    /// The observer as a mutable value of any type, for `downcast_mut`.
    fn as_any_mut(&mut self) -> AnyMut<'_>;

    /// An independent copy of the observer and all that it has collected.
    fn clone_box(&self) -> BoxedInspector;

    /// Called before the first instruction of a frame.
    ///
    /// If the observer sets `interp.instruction_result` to anything other
    /// than `InstructionResult::Continue`, the host skips the frame.
    #[inline]
    fn initialize_interp(&mut self, interp: &mut Interpreter, context: InnerEvmContextWrap<'_, '_>)
        ensures
            forall|hook: Hook|
                #![trigger old(self).leaves(hook)]
                #![trigger final(self).leaves(hook)]
                old(self).leaves(hook) ==> final(self).leaves(hook),
            *old(context.error) is Err ==> *final(context.error) == *old(context.error),
            old(self).leaves(Hook::InitializeInterp) ==> {
                &&& &*final(self) == &*old(self)
                &&& *final(interp) == *old(interp)
                &&& *final(context.env) == *old(context.env)
                &&& *final(context.journaled_state) == *old(context.journaled_state)
                &&& *final(context.error) == *old(context.error)
            },
    {
    }

    /// Called before each instruction.
    ///
    /// The memory, the stack and the program counter are on `interp`.
    #[inline]
    fn step(&mut self, interp: &mut Interpreter, context: InnerEvmContextWrap<'_, '_>)
        ensures
            forall|hook: Hook|
                #![trigger old(self).leaves(hook)]
                #![trigger final(self).leaves(hook)]
                old(self).leaves(hook) ==> final(self).leaves(hook),
            *old(context.error) is Err ==> *final(context.error) == *old(context.error),
            old(self).leaves(Hook::Step) ==> {
                &&& &*final(self) == &*old(self)
                &&& *final(interp) == *old(interp)
                &&& *final(context.env) == *old(context.env)
                &&& *final(context.journaled_state) == *old(context.journaled_state)
                &&& *final(context.error) == *old(context.error)
            },
    {
    }

    /// Called after each instruction.
    ///
    /// Setting `interp.instruction_result` to anything other than
    /// `InstructionResult::Continue` redirects the interpreter.
    #[inline]
    fn step_end(&mut self, interp: &mut Interpreter, context: InnerEvmContextWrap<'_, '_>)
        ensures
            forall|hook: Hook|
                #![trigger old(self).leaves(hook)]
                #![trigger final(self).leaves(hook)]
                old(self).leaves(hook) ==> final(self).leaves(hook),
            *old(context.error) is Err ==> *final(context.error) == *old(context.error),
            old(self).leaves(Hook::StepEnd) ==> {
                &&& &*final(self) == &*old(self)
                &&& *final(interp) == *old(interp)
                &&& *final(context.env) == *old(context.env)
                &&& *final(context.journaled_state) == *old(context.journaled_state)
                &&& *final(context.error) == *old(context.error)
            },
    {
    }

    /// Called when the interpreter emits a log record.
    #[inline]
    fn log(&mut self, interp: &mut Interpreter, context: InnerEvmContextWrap<'_, '_>, log: &Log)
        ensures
            forall|hook: Hook|
                #![trigger old(self).leaves(hook)]
                #![trigger final(self).leaves(hook)]
                old(self).leaves(hook) ==> final(self).leaves(hook),
            *old(context.error) is Err ==> *final(context.error) == *old(context.error),
            old(self).leaves(Hook::Log) ==> {
                &&& &*final(self) == &*old(self)
                &&& *final(interp) == *old(interp)
                &&& *final(context.env) == *old(context.env)
                &&& *final(context.journaled_state) == *old(context.journaled_state)
                &&& *final(context.error) == *old(context.error)
            },
    {
    }

    /// Called before a call is dispatched.
    ///
    /// An outcome returned here replaces the call: the host does not execute
    /// it. With no outcome the host goes on, with `inputs` as the observer
    /// left them.
    #[inline]
    fn call(&mut self, context: InnerEvmContextWrap<'_, '_>, inputs: &mut CallInputs) -> (outcome: Option<
        CallOutcome,
    >)
        ensures
            forall|hook: Hook|
                #![trigger old(self).leaves(hook)]
                #![trigger final(self).leaves(hook)]
                old(self).leaves(hook) ==> final(self).leaves(hook),
            *old(context.error) is Err ==> *final(context.error) == *old(context.error),
            old(self).leaves(Hook::Call) ==> {
                &&& &*final(self) == &*old(self)
                &&& outcome is None
                &&& *final(inputs) == *old(inputs)
                &&& *final(context.env) == *old(context.env)
                &&& *final(context.journaled_state) == *old(context.journaled_state)
                &&& *final(context.error) == *old(context.error)
            },
    {
        None
    }

    /// Called when a call has concluded, executed or replaced.
    ///
    /// What is returned is the result of the call.
    #[inline]
    fn call_end(
        &mut self,
        context: InnerEvmContextWrap<'_, '_>,
        inputs: &CallInputs,
        outcome: CallOutcome,
    ) -> (amended: CallOutcome)
        ensures
            forall|hook: Hook|
                #![trigger old(self).leaves(hook)]
                #![trigger final(self).leaves(hook)]
                old(self).leaves(hook) ==> final(self).leaves(hook),
            *old(context.error) is Err ==> *final(context.error) == *old(context.error),
            old(self).leaves(Hook::CallEnd) ==> {
                &&& &*final(self) == &*old(self)
                &&& amended == outcome
                &&& *final(context.env) == *old(context.env)
                &&& *final(context.journaled_state) == *old(context.journaled_state)
                &&& *final(context.error) == *old(context.error)
            },
    {
        outcome
    }

    /// Called before a contract is created.
    ///
    /// An outcome returned here replaces the creation. With no outcome the
    /// creation proceeds, with `inputs` as the observer left them.
    #[inline]
    fn create(&mut self, context: InnerEvmContextWrap<'_, '_>, inputs: &mut CreateInputs) -> (outcome:
        Option<CreateOutcome>)
        ensures
            forall|hook: Hook|
                #![trigger old(self).leaves(hook)]
                #![trigger final(self).leaves(hook)]
                old(self).leaves(hook) ==> final(self).leaves(hook),
            *old(context.error) is Err ==> *final(context.error) == *old(context.error),
            old(self).leaves(Hook::Create) ==> {
                &&& &*final(self) == &*old(self)
                &&& outcome is None
                &&& *final(inputs) == *old(inputs)
                &&& *final(context.env) == *old(context.env)
                &&& *final(context.journaled_state) == *old(context.journaled_state)
                &&& *final(context.error) == *old(context.error)
            },
    {
        None
    }

    /// Called when a creation has concluded, executed or replaced.
    ///
    /// What is returned is the result of the creation.
    #[inline]
    fn create_end(
        &mut self,
        context: InnerEvmContextWrap<'_, '_>,
        inputs: &CreateInputs,
        outcome: CreateOutcome,
    ) -> (amended: CreateOutcome)
        ensures
            forall|hook: Hook|
                #![trigger old(self).leaves(hook)]
                #![trigger final(self).leaves(hook)]
                old(self).leaves(hook) ==> final(self).leaves(hook),
            *old(context.error) is Err ==> *final(context.error) == *old(context.error),
            old(self).leaves(Hook::CreateEnd) ==> {
                &&& &*final(self) == &*old(self)
                &&& amended == outcome
                &&& *final(context.env) == *old(context.env)
                &&& *final(context.journaled_state) == *old(context.journaled_state)
                &&& *final(context.error) == *old(context.error)
            },
    {
        outcome
    }

    /// Called before a contract is created in the EOF format, from a create
    /// transaction or from the EOFCREATE instruction.
    fn eofcreate(&mut self, context: InnerEvmContextWrap<'_, '_>, inputs: &mut EOFCreateInputs) -> (outcome:
        Option<CreateOutcome>)
        ensures
            forall|hook: Hook|
                #![trigger old(self).leaves(hook)]
                #![trigger final(self).leaves(hook)]
                old(self).leaves(hook) ==> final(self).leaves(hook),
            *old(context.error) is Err ==> *final(context.error) == *old(context.error),
            old(self).leaves(Hook::EofCreate) ==> {
                &&& &*final(self) == &*old(self)
                &&& outcome is None
                &&& *final(inputs) == *old(inputs)
                &&& *final(context.env) == *old(context.env)
                &&& *final(context.journaled_state) == *old(context.journaled_state)
                &&& *final(context.error) == *old(context.error)
            },
    {
        None
    }

    /// Called when a creation in the EOF format has concluded.
    fn eofcreate_end(
        &mut self,
        context: InnerEvmContextWrap<'_, '_>,
        inputs: &EOFCreateInputs,
        outcome: CreateOutcome,
    ) -> (amended: CreateOutcome)
        ensures
            forall|hook: Hook|
                #![trigger old(self).leaves(hook)]
                #![trigger final(self).leaves(hook)]
                old(self).leaves(hook) ==> final(self).leaves(hook),
            *old(context.error) is Err ==> *final(context.error) == *old(context.error),
            old(self).leaves(Hook::EofCreateEnd) ==> {
                &&& &*final(self) == &*old(self)
                &&& amended == outcome
                &&& *final(context.env) == *old(context.env)
                &&& *final(context.journaled_state) == *old(context.journaled_state)
                &&& *final(context.error) == *old(context.error)
            },
    {
        outcome
    }

    /// Called when a contract has destroyed itself and its funds have gone
    /// to `target`. The destruction is done by then: nothing can be
    /// overridden.
    #[inline]
    fn selfdestruct(&mut self, contract: Address, target: Address, value: U256)
        ensures
            forall|hook: Hook|
                #![trigger old(self).leaves(hook)]
                #![trigger final(self).leaves(hook)]
                old(self).leaves(hook) ==> final(self).leaves(hook),
            old(self).leaves(Hook::SelfDestruct) ==> &*final(self) == &*old(self),
    {
    }
}

/// The observer that a handle holds when it was given none. It overrides no
/// hook.
#[derive(Debug, Clone)]
pub struct DefaultInspector {}

impl Default for DefaultInspector {
    fn default() -> (inspector: Self)
        ensures
            inspector == (DefaultInspector {}),
    {
        DefaultInspector {}
    }
}

impl CustomizableInspector for DefaultInspector {
    open spec fn leaves(&self, hook: Hook) -> bool {
        true
    }

    fn as_any(&self) -> (seen: AnyRef<'_>)
        ensures
            forgets_ref::<DefaultInspector>(self, seen),
    {
        forget_ref(self)
    }

    fn into_box_any(self: Box<Self>) -> (held: AnyBox)
        ensures
            forgets_box::<DefaultInspector>(self, held),
    {
        forget_box(self)
    }

    fn as_any_mut(&mut self) -> (seen: AnyMut<'_>)
        ensures
            (exists|lent: &mut DefaultInspector|
                #![trigger forgets_mut::<DefaultInspector>(lent, seen)]
                {
                    &&& *lent == *old(self)
                    &&& forgets_mut::<DefaultInspector>(lent, seen)
                }),
    {
        forget_mut(self)
    }

    fn clone_box(&self) -> (copy: BoxedInspector)
        ensures
            boxes(*self, copy),
    {
        packed(self.clone())
    }
}

} // verus!
