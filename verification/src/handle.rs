//! The handle that a host holds.

use crate::context::InnerEvmContextWrap;
use crate::dispatch;
use crate::erased::{
    cast, cast_gives, cast_ref, cast_ref_gives, forgets_box, forgets_ref, forgotten_box_is_typed,
    forgotten_ref_is_typed, names_type, stored_type_box, stored_type_ref, AnyBox, AnyRef,
};
use std::any::TypeId;
use crate::inspector::{
    boxes, BoxedInspector, CustomizableInspector, DefaultInspector, Hook,
};
use alloy_primitives::{Address, Log, U256};
use revm::interpreter::{
    CallInputs, CallOutcome, CreateInputs, CreateOutcome, EOFCreateInputs, Interpreter,
};
use vstd::prelude::*;

verus! {

/// Owns one observer of any type and stands for it at every hook.
///
/// The observer is exclusively owned. A clone holds a copy of it, never the
/// same one, so two handles collect apart from each other.
pub struct Customizable {
    pub inspector: Box<dyn CustomizableInspector>,
}

/// Puts a boxed observer behind the observer interface, in the struct that
/// such an observer travels in: the unsizing of `Box<T>` to a trait object.
/// A method called on a trait object is the method of the value that it was
/// made from, so a handle that is given this trait object holds `inspector`.
#[verifier::external_body]
fn pack<T: CustomizableInspector>(inspector: Box<T>) -> (made: BoxedInspector)
    ensures
        carries(made, *inspector),
{
    BoxedInspector(inspector)
}

/// Takes the boxed observer out of the struct that it travels in and gives
/// it to a handle. Where the struct was made by boxing an observer that
/// does nothing, the handle holds that observer.
#[verifier::external_body]
fn unpacked(made: BoxedInspector) -> (handle: Customizable)
    ensures
        forall|of: DefaultInspector| #[trigger] boxes(of, made) ==> handle.holds(of),
{
    Customizable { inspector: made.0 }
}

/// A handle that is given the observer in `made` holds `inspector`.
pub open spec fn carries<T: CustomizableInspector>(made: BoxedInspector, inspector: T) -> bool {
    forall|handle: Customizable| #[trigger] unpacks(made, handle) ==> handle.holds(inspector)
}

/// `handle` is what taking the boxed observer out of `made` gave.
pub closed spec fn unpacks(made: BoxedInspector, handle: Customizable) -> bool {
    call_ensures(unpacked, (made,), handle)
}

/// What is left of a cast for the caller: the value out of its box, or
/// nothing where the cast failed.
pub open spec fn unboxed<T>(cast: Result<Box<T>, AnyBox>) -> Option<T> {
    match cast {
        Ok(held) => Some(*held),
        Err(_) => None,
    }
}

/// The owned observer that a cast gave, or nothing where the cast failed.
/// The box that a failed cast hands back is dropped.
pub fn taken<T>(cast: Result<Box<T>, AnyBox>) -> (inspector: Option<T>)
    ensures
        inspector == unboxed(cast),
{
    match cast {
        Ok(d) => Some(*d),
        Err(_e) => None,
    }
}

/// What `inspector`'s `as_any` returns is `inspector` itself with its type
/// forgotten: the observer hides nothing and shows nothing else.
pub open spec fn shows_itself<T: CustomizableInspector>(inspector: T) -> bool {
    forall|seen: AnyRef<'_>| #[trigger]
        dispatch::as_any_admits(&inspector, seen) ==> forgets_ref::<T>(&inspector, seen)
}

/// What `inspector`'s `into_box_any` returns is `inspector` itself with its
/// type forgotten.
pub open spec fn yields_itself<T: CustomizableInspector>(inspector: T) -> bool {
    forall|held: AnyBox| #[trigger]
        dispatch::into_box_any_admits(Box::new(inspector), held) ==> forgets_box::<T>(Box::new(inspector), held)
}

/// What `inspector`'s `clone_box` returns carries an observer equal to
/// `inspector`.
pub open spec fn clones_itself<T: CustomizableInspector>(inspector: T) -> bool {
    forall|made: BoxedInspector| #[trigger]
        dispatch::clone_box_admits(&inspector, made) ==> carries(made, inspector)
}

/// The observer that does nothing shows and yields itself.
pub proof fn default_inspector_shows_itself(inspector: DefaultInspector)
    ensures
        shows_itself(inspector),
        yields_itself(inspector),
{
}

impl Customizable {
    /// Whether the observer that the handle holds leaves `hook` alone.
    pub open spec fn leaves(&self, hook: Hook) -> bool {
        self.inspector.leaves(hook)
    }

    /// Whether the observer that the handle holds leaves every hook alone.
    pub open spec fn passive(&self) -> bool {
        forall|hook: Hook| self.leaves(hook)
    }

    /// The handle's observer is `inspector`: it leaves the hooks alone that
    /// `inspector` leaves alone, and what its `as_any`, `into_box_any` and
    /// `clone_box` return, those of `inspector` return.
    pub open spec fn holds<T: CustomizableInspector>(&self, inspector: T) -> bool {
        &&& forall|hook: Hook| #[trigger] self.inspector.leaves(hook) == inspector.leaves(hook)
        &&& forall|seen: AnyRef<'_>| #[trigger]
            dispatch::as_any_admits(&*self.inspector, seen)
                ==> dispatch::as_any_admits(&inspector, seen)
        &&& forall|held: AnyBox| #[trigger]
            dispatch::into_box_any_admits(self.inspector, held)
                ==> dispatch::into_box_any_admits(Box::new(inspector), held)
        &&& forall|made: BoxedInspector| #[trigger]
            dispatch::clone_box_admits(&*self.inspector, made)
                ==> dispatch::clone_box_admits(&inspector, made)
    }

    /// Whatever the observer's `as_any` returns is `of` with its type
    /// forgotten.
    pub open spec fn shows<T: 'static>(&self, of: &T) -> bool {
        forall|seen: AnyRef<'_>| #[trigger]
            dispatch::as_any_admits(&*self.inspector, seen) ==> forgets_ref::<T>(
                of,
                seen,
            )
    }

    /// Whatever the observer's `into_box_any` returns is `of` with its type
    /// forgotten.
    pub open spec fn yields<T: 'static>(&self, of: Box<T>) -> bool {
        forall|held: AnyBox| #[trigger]
            dispatch::into_box_any_admits(self.inspector, held) ==> forgets_box::<T>(
                of,
                held,
            )
    }

    /// Whatever the observer's `as_any` returns refers to a value of the
    /// type that `id` identifies.
    pub open spec fn shows_type(&self, id: TypeId) -> bool {
        forall|seen: AnyRef<'_>| #[trigger]
            dispatch::as_any_admits(&*self.inspector, seen) ==> stored_type_ref(seen) == id
    }

    /// Whatever the observer's `into_box_any` returns owns a value of the
    /// type that `id` identifies.
    pub open spec fn yields_type(&self, id: TypeId) -> bool {
        forall|held: AnyBox| #[trigger]
            dispatch::into_box_any_admits(self.inspector, held) ==> stored_type_box(held) == id
    }

    /// An observer that is shown as a value of one type is shown as of that
    /// type.
    pub proof fn shown_observer_is_typed<S: 'static>(&self, of: &S, id: TypeId)
        requires
            self.shows(of),
            names_type::<S>(id),
        ensures
            self.shows_type(id),
    {
        assert forall|seen: AnyRef<'_>| #[trigger]
            dispatch::as_any_admits(&*self.inspector, seen) implies stored_type_ref(seen) == id by {
            forgotten_ref_is_typed::<S>(of, seen, id);
        }
    }

    /// An observer that is yielded as a value of one type is yielded as of
    /// that type.
    pub proof fn yielded_observer_is_typed<S: 'static>(&self, of: Box<S>, id: TypeId)
        requires
            self.yields(of),
            names_type::<S>(id),
        ensures
            self.yields_type(id),
    {
        assert forall|held: AnyBox| #[trigger]
            dispatch::into_box_any_admits(self.inspector, held) implies stored_type_box(held) == id by {
            forgotten_box_is_typed::<S>(of, held, id);
        }
    }

    /// A handle that holds the observer that does nothing leaves every hook
    /// alone.
    pub proof fn default_observer_leaves_every_hook(&self)
        requires
            self.holds(DefaultInspector {}),
        ensures
            self.passive(),
    {
        assert forall|hook: Hook| self.leaves(hook) by {
            assert(self.inspector.leaves(hook) == (DefaultInspector {}).leaves(hook));
        }
    }

    /// The handle holds what `source`'s observer returned from `clone_box`:
    /// it is what `clone` makes of `source`.
    pub open spec fn is_clone_of(&self, source: &Customizable) -> bool {
        exists|made: BoxedInspector|
            #![trigger unpacks(made, *self)]
            dispatch::clone_box_admits(&*source.inspector, made) && unpacks(made, *self)
    }

    /// A clone of a handle holds a copy equal to the observer that the
    /// handle holds, if that observer clones itself.
    pub proof fn clone_holds_what_was_held<T: CustomizableInspector>(&self, copy: &Customizable, inspector: T)
        requires
            self.holds(inspector),
            clones_itself(inspector),
            copy.is_clone_of(self),
        ensures
            copy.holds(inspector),
    {
        let made = choose|made: BoxedInspector|
            #![trigger unpacks(made, *copy)]
            dispatch::clone_box_admits(&*self.inspector, made) && unpacks(made, *copy);
        assert(dispatch::clone_box_admits(&inspector, made));
        assert(carries(made, inspector));
    }

    /// A handle gives back, by reference and by its own type, the observer
    /// that it holds, if that observer shows itself.
    pub proof fn held_observer_is_shown<T: CustomizableInspector>(&self, inspector: T)
        requires
            self.holds(inspector),
            shows_itself(inspector),
        ensures
            self.shows(&inspector),
    {
    }

    /// A handle gives up, by value and by its own type, the observer that it
    /// holds, if that observer yields itself.
    pub proof fn held_observer_is_yielded<T: CustomizableInspector>(&self, inspector: T)
        requires
            self.holds(inspector),
            yields_itself(inspector),
        ensures
            self.yields(Box::new(inspector)),
    {
    }

    /// A handle that holds `inspector`.
    pub fn new<T: CustomizableInspector + Sync + 'static>(inspector: T) -> (handle: Self)
        ensures
            handle.holds(inspector),
    {
        let made = pack(Box::new(inspector));
        let ghost given = made;
        let handle = unpacked(made);
        assert(unpacks(given, handle));
        handle
    }

    /// The observer as a `T`, where it is one; nothing where it is of
    /// another type. What comes back is what the cast to `T` gave of what the
    /// observer's `as_any` returned: the observer itself where it shows
    /// itself as a `T`, and something exactly where what it shows is of the
    /// type `T`.
    pub fn get_inspector<T: CustomizableInspector + Sync + 'static>(&self) -> (found: Option<&T>)
        ensures
            (exists|seen: AnyRef<'_>|
                #![trigger cast_ref_gives::<T>(seen, found)]
                dispatch::as_any_admits(&*self.inspector, seen) && cast_ref_gives::<T>(seen, found)),
            forall|of: &T| #[trigger] self.shows(of) ==> found == Some(of),
            forall|stored: TypeId, asked: TypeId|
                #![trigger self.shows_type(stored), names_type::<T>(asked)]
                self.shows_type(stored) && names_type::<T>(asked) ==> (found is Some <==> stored == asked),
    {
        let seen = dispatch::as_any(&*self.inspector);
        let ghost given = seen;
        let df = cast_ref::<T>(seen);
        assert(cast_ref_gives::<T>(given, df));
        assert forall|of: &T| #[trigger] self.shows(of) implies df == Some(of) by {
            assert(dispatch::as_any_admits(&*self.inspector, given));
            assert(forgets_ref::<T>(of, given));
        }
        df
    }

    /// Gives the observer up as a `T`, where it is one. Where it is of
    /// another type, nothing comes back and the observer is dropped. Either
    /// way the handle is gone. What comes back is what is left of the cast
    /// to `T` of what the observer's `into_box_any` returned: the observer
    /// itself where it yields itself as a `T`, and something exactly where
    /// what it yields is of the type `T`.
    pub fn take_inspector<T: CustomizableInspector + Sync + 'static>(self) -> (inspector: Option<T>)
        ensures
            (exists|held: AnyBox, cast: Result<Box<T>, AnyBox>|
                #![trigger cast_gives::<T>(held, cast)]
                {
                    &&& dispatch::into_box_any_admits(self.inspector, held)
                    &&& cast_gives::<T>(held, cast)
                    &&& inspector == unboxed(cast)
                }),
            forall|of: Box<T>| #[trigger] self.yields(of) ==> inspector == Some(*of),
            forall|stored: TypeId, asked: TypeId|
                #![trigger self.yields_type(stored), names_type::<T>(asked)]
                self.yields_type(stored) && names_type::<T>(asked) ==> (inspector is Some <==> stored == asked),
    {
        let held = dispatch::into_box_any(self.inspector);
        let ghost given = held;
        let inspector = cast::<T>(held);
        assert(cast_gives::<T>(given, inspector));
        assert forall|of: Box<T>| #[trigger] self.yields(of) implies unboxed(inspector) == Some(*of) by {
            assert(dispatch::into_box_any_admits(self.inspector, given));
            assert(forgets_box::<T>(of, given));
        }
        taken(inspector)
    }

    /// Hands the start of a frame on to the observer.
    pub fn initialize_interp(
        &mut self,
        interp: &mut Interpreter,
        context: InnerEvmContextWrap<'_, '_>,
    )
        ensures
            (exists|called: &mut dyn CustomizableInspector, frame: &mut Interpreter|
                #![trigger dispatch::initialize_interp_admits(called, frame, context)]
                {
                    &&& &*called == &*old(self).inspector
                    &&& &*final(called) == &*final(self).inspector
                    &&& *frame == *old(interp)
                    &&& *final(frame) == *final(interp)
                    &&& dispatch::initialize_interp_admits(called, frame, context)
                }),
            forall|hook: Hook|
                #![trigger old(self).leaves(hook)]
                #![trigger final(self).leaves(hook)]
                old(self).leaves(hook) ==> final(self).leaves(hook),
            *old(context.error) is Err ==> *final(context.error) == *old(context.error),
            old(self).leaves(Hook::InitializeInterp) ==> {
                &&& *final(self) == *old(self)
                &&& *final(interp) == *old(interp)
                &&& *final(context.env) == *old(context.env)
                &&& *final(context.journaled_state) == *old(context.journaled_state)
                &&& *final(context.error) == *old(context.error)
            },
    {
        dispatch::initialize_interp(&mut *self.inspector, interp, context);
    }

    /// Hands the instruction that is about to run on to the observer.
    pub fn step(
        &mut self,
        interp: &mut Interpreter,
        context: InnerEvmContextWrap<'_, '_>,
    )
        ensures
            (exists|called: &mut dyn CustomizableInspector, frame: &mut Interpreter|
                #![trigger dispatch::step_admits(called, frame, context)]
                {
                    &&& &*called == &*old(self).inspector
                    &&& &*final(called) == &*final(self).inspector
                    &&& *frame == *old(interp)
                    &&& *final(frame) == *final(interp)
                    &&& dispatch::step_admits(called, frame, context)
                }),
            forall|hook: Hook|
                #![trigger old(self).leaves(hook)]
                #![trigger final(self).leaves(hook)]
                old(self).leaves(hook) ==> final(self).leaves(hook),
            *old(context.error) is Err ==> *final(context.error) == *old(context.error),
            old(self).leaves(Hook::Step) ==> {
                &&& *final(self) == *old(self)
                &&& *final(interp) == *old(interp)
                &&& *final(context.env) == *old(context.env)
                &&& *final(context.journaled_state) == *old(context.journaled_state)
                &&& *final(context.error) == *old(context.error)
            },
    {
        dispatch::step(&mut *self.inspector, interp, context);
    }

    /// Hands the instruction that has just run on to the observer.
    pub fn step_end(
        &mut self,
        interp: &mut Interpreter,
        context: InnerEvmContextWrap<'_, '_>,
    )
        ensures
            (exists|called: &mut dyn CustomizableInspector, frame: &mut Interpreter|
                #![trigger dispatch::step_end_admits(called, frame, context)]
                {
                    &&& &*called == &*old(self).inspector
                    &&& &*final(called) == &*final(self).inspector
                    &&& *frame == *old(interp)
                    &&& *final(frame) == *final(interp)
                    &&& dispatch::step_end_admits(called, frame, context)
                }),
            forall|hook: Hook|
                #![trigger old(self).leaves(hook)]
                #![trigger final(self).leaves(hook)]
                old(self).leaves(hook) ==> final(self).leaves(hook),
            *old(context.error) is Err ==> *final(context.error) == *old(context.error),
            old(self).leaves(Hook::StepEnd) ==> {
                &&& *final(self) == *old(self)
                &&& *final(interp) == *old(interp)
                &&& *final(context.env) == *old(context.env)
                &&& *final(context.journaled_state) == *old(context.journaled_state)
                &&& *final(context.error) == *old(context.error)
            },
    {
        dispatch::step_end(&mut *self.inspector, interp, context);
    }

    /// Hands a log record on to the observer.
    pub fn log(
        &mut self,
        interp: &mut Interpreter,
        context: InnerEvmContextWrap<'_, '_>,
        log: &Log,
    )
        ensures
            (exists|called: &mut dyn CustomizableInspector, frame: &mut Interpreter|
                #![trigger dispatch::log_admits(called, frame, context, log)]
                {
                    &&& &*called == &*old(self).inspector
                    &&& &*final(called) == &*final(self).inspector
                    &&& *frame == *old(interp)
                    &&& *final(frame) == *final(interp)
                    &&& dispatch::log_admits(called, frame, context, log)
                }),
            forall|hook: Hook|
                #![trigger old(self).leaves(hook)]
                #![trigger final(self).leaves(hook)]
                old(self).leaves(hook) ==> final(self).leaves(hook),
            *old(context.error) is Err ==> *final(context.error) == *old(context.error),
            old(self).leaves(Hook::Log) ==> {
                &&& *final(self) == *old(self)
                &&& *final(interp) == *old(interp)
                &&& *final(context.env) == *old(context.env)
                &&& *final(context.journaled_state) == *old(context.journaled_state)
                &&& *final(context.error) == *old(context.error)
            },
    {
        dispatch::log(&mut *self.inspector, interp, context, log);
    }

    /// Hands a call request on to the observer, and its answer back.
    pub fn call(
        &mut self,
        context: InnerEvmContextWrap<'_, '_>,
        inputs: &mut CallInputs,
    ) -> (outcome: Option<CallOutcome>)
        ensures
            (exists|called: &mut dyn CustomizableInspector, request: &mut CallInputs|
                #![trigger dispatch::call_admits(called, context, request, outcome)]
                {
                    &&& &*called == &*old(self).inspector
                    &&& &*final(called) == &*final(self).inspector
                    &&& *request == *old(inputs)
                    &&& *final(request) == *final(inputs)
                    &&& dispatch::call_admits(called, context, request, outcome)
                }),
            forall|hook: Hook|
                #![trigger old(self).leaves(hook)]
                #![trigger final(self).leaves(hook)]
                old(self).leaves(hook) ==> final(self).leaves(hook),
            *old(context.error) is Err ==> *final(context.error) == *old(context.error),
            old(self).leaves(Hook::Call) ==> {
                &&& *final(self) == *old(self)
                &&& outcome is None
                &&& *final(inputs) == *old(inputs)
                &&& *final(context.env) == *old(context.env)
                &&& *final(context.journaled_state) == *old(context.journaled_state)
                &&& *final(context.error) == *old(context.error)
            },
    {
        dispatch::call(&mut *self.inspector, context, inputs)
    }

    /// Hands the outcome of a call on to the observer, and what the observer
    /// made of it back.
    pub fn call_end(
        &mut self,
        context: InnerEvmContextWrap<'_, '_>,
        inputs: &CallInputs,
        outcome: CallOutcome,
    ) -> (amended: CallOutcome)
        ensures
            (exists|called: &mut dyn CustomizableInspector|
                #![trigger dispatch::call_end_admits(called, context, inputs, outcome, amended)]
                {
                    &&& &*called == &*old(self).inspector
                    &&& &*final(called) == &*final(self).inspector
                    &&& dispatch::call_end_admits(called, context, inputs, outcome, amended)
                }),
            forall|hook: Hook|
                #![trigger old(self).leaves(hook)]
                #![trigger final(self).leaves(hook)]
                old(self).leaves(hook) ==> final(self).leaves(hook),
            *old(context.error) is Err ==> *final(context.error) == *old(context.error),
            old(self).leaves(Hook::CallEnd) ==> {
                &&& *final(self) == *old(self)
                &&& amended == outcome
                &&& *final(context.env) == *old(context.env)
                &&& *final(context.journaled_state) == *old(context.journaled_state)
                &&& *final(context.error) == *old(context.error)
            },
    {
        dispatch::call_end(&mut *self.inspector, context, inputs, outcome)
    }

    /// Hands a create request on to the observer, and its answer back.
    pub fn create(
        &mut self,
        context: InnerEvmContextWrap<'_, '_>,
        inputs: &mut CreateInputs,
    ) -> (outcome: Option<CreateOutcome>)
        ensures
            (exists|called: &mut dyn CustomizableInspector, request: &mut CreateInputs|
                #![trigger dispatch::create_admits(called, context, request, outcome)]
                {
                    &&& &*called == &*old(self).inspector
                    &&& &*final(called) == &*final(self).inspector
                    &&& *request == *old(inputs)
                    &&& *final(request) == *final(inputs)
                    &&& dispatch::create_admits(called, context, request, outcome)
                }),
            forall|hook: Hook|
                #![trigger old(self).leaves(hook)]
                #![trigger final(self).leaves(hook)]
                old(self).leaves(hook) ==> final(self).leaves(hook),
            *old(context.error) is Err ==> *final(context.error) == *old(context.error),
            old(self).leaves(Hook::Create) ==> {
                &&& *final(self) == *old(self)
                &&& outcome is None
                &&& *final(inputs) == *old(inputs)
                &&& *final(context.env) == *old(context.env)
                &&& *final(context.journaled_state) == *old(context.journaled_state)
                &&& *final(context.error) == *old(context.error)
            },
    {
        dispatch::create(&mut *self.inspector, context, inputs)
    }

    /// Hands the outcome of a creation on to the observer, and what the
    /// observer made of it back.
    pub fn create_end(
        &mut self,
        context: InnerEvmContextWrap<'_, '_>,
        inputs: &CreateInputs,
        outcome: CreateOutcome,
    ) -> (amended: CreateOutcome)
        ensures
            (exists|called: &mut dyn CustomizableInspector|
                #![trigger dispatch::create_end_admits(called, context, inputs, outcome, amended)]
                {
                    &&& &*called == &*old(self).inspector
                    &&& &*final(called) == &*final(self).inspector
                    &&& dispatch::create_end_admits(called, context, inputs, outcome, amended)
                }),
            forall|hook: Hook|
                #![trigger old(self).leaves(hook)]
                #![trigger final(self).leaves(hook)]
                old(self).leaves(hook) ==> final(self).leaves(hook),
            *old(context.error) is Err ==> *final(context.error) == *old(context.error),
            old(self).leaves(Hook::CreateEnd) ==> {
                &&& *final(self) == *old(self)
                &&& amended == outcome
                &&& *final(context.env) == *old(context.env)
                &&& *final(context.journaled_state) == *old(context.journaled_state)
                &&& *final(context.error) == *old(context.error)
            },
    {
        dispatch::create_end(&mut *self.inspector, context, inputs, outcome)
    }

    /// Hands a create request in the EOF format on to the observer, and its
    /// answer back.
    pub fn eofcreate(
        &mut self,
        context: InnerEvmContextWrap<'_, '_>,
        inputs: &mut EOFCreateInputs,
    ) -> (outcome: Option<CreateOutcome>)
        ensures
            (exists|called: &mut dyn CustomizableInspector, request: &mut EOFCreateInputs|
                #![trigger dispatch::eofcreate_admits(called, context, request, outcome)]
                {
                    &&& &*called == &*old(self).inspector
                    &&& &*final(called) == &*final(self).inspector
                    &&& *request == *old(inputs)
                    &&& *final(request) == *final(inputs)
                    &&& dispatch::eofcreate_admits(called, context, request, outcome)
                }),
            forall|hook: Hook|
                #![trigger old(self).leaves(hook)]
                #![trigger final(self).leaves(hook)]
                old(self).leaves(hook) ==> final(self).leaves(hook),
            *old(context.error) is Err ==> *final(context.error) == *old(context.error),
            old(self).leaves(Hook::EofCreate) ==> {
                &&& *final(self) == *old(self)
                &&& outcome is None
                &&& *final(inputs) == *old(inputs)
                &&& *final(context.env) == *old(context.env)
                &&& *final(context.journaled_state) == *old(context.journaled_state)
                &&& *final(context.error) == *old(context.error)
            },
    {
        dispatch::eofcreate(&mut *self.inspector, context, inputs)
    }

    /// Hands the outcome of a creation in the EOF format on to the observer,
    /// and what the observer made of it back.
    pub fn eofcreate_end(
        &mut self,
        context: InnerEvmContextWrap<'_, '_>,
        inputs: &EOFCreateInputs,
        outcome: CreateOutcome,
    ) -> (amended: CreateOutcome)
        ensures
            (exists|called: &mut dyn CustomizableInspector|
                #![trigger dispatch::eofcreate_end_admits(called, context, inputs, outcome, amended)]
                {
                    &&& &*called == &*old(self).inspector
                    &&& &*final(called) == &*final(self).inspector
                    &&& dispatch::eofcreate_end_admits(called, context, inputs, outcome, amended)
                }),
            forall|hook: Hook|
                #![trigger old(self).leaves(hook)]
                #![trigger final(self).leaves(hook)]
                old(self).leaves(hook) ==> final(self).leaves(hook),
            *old(context.error) is Err ==> *final(context.error) == *old(context.error),
            old(self).leaves(Hook::EofCreateEnd) ==> {
                &&& *final(self) == *old(self)
                &&& amended == outcome
                &&& *final(context.env) == *old(context.env)
                &&& *final(context.journaled_state) == *old(context.journaled_state)
                &&& *final(context.error) == *old(context.error)
            },
    {
        dispatch::eofcreate_end(&mut *self.inspector, context, inputs, outcome)
    }

    /// Tells the observer of a self-destruct that has been committed.
    pub fn selfdestruct(
        &mut self,
        contract: Address,
        target: Address,
        value: U256,
    )
        ensures
            (exists|called: &mut dyn CustomizableInspector|
                #![trigger dispatch::selfdestruct_admits(called, contract, target, value)]
                {
                    &&& &*called == &*old(self).inspector
                    &&& &*final(called) == &*final(self).inspector
                    &&& dispatch::selfdestruct_admits(called, contract, target, value)
                }),
            forall|hook: Hook|
                #![trigger old(self).leaves(hook)]
                #![trigger final(self).leaves(hook)]
                old(self).leaves(hook) ==> final(self).leaves(hook),
            old(self).leaves(Hook::SelfDestruct) ==> *final(self) == *old(self),
    {
        dispatch::selfdestruct(&mut *self.inspector, contract, target, value);
    }
}

impl Clone for Customizable {
    /// A handle of its own, which holds what the observer's `clone_box`
    /// returned: a copy of the observer, never the observer itself.
    fn clone(&self) -> (copy: Self)
        ensures
            copy.is_clone_of(self),
            forall|of: DefaultInspector| #[trigger] self.holds(of) ==> copy.holds(of),
    {
        let made = dispatch::clone_box(&*self.inspector);
        let ghost given = made;
        let copy = unpacked(made);
        assert(unpacks(given, copy));
        copy
    }
}

impl Default for Customizable {
    /// A handle that holds a [`DefaultInspector`]: every hook of it is a
    /// no-op, however often it is called.
    fn default() -> (handle: Self)
        ensures
            handle.holds(DefaultInspector {}),
    {
        Customizable::new(DefaultInspector {})
    }
}

} // verus!
