//! The handle on its own, with hooks called by hand.

use alloy_primitives::{Address, Bytes, Log, LogData, B256, U256};
use customizable_inspector::{
    taken, AnyBox, AnyMut, AnyRef, BoxedInspector, Customizable, CustomizableInspector, DatabaseError,
    DefaultInspector, InnerEvmContextWrap, StateAccessor,
};
use revm::db::EmptyDBTyped;
use revm::interpreter::{
    CallInputs, CallOutcome, CallScheme, CallValue, CreateInputs, CreateOutcome, EOFCreateInputs,
    Gas, InstructionResult, Interpreter, InterpreterResult,
};
use revm::primitives::{CreateScheme, EVMError, Env, HashSet, SpecId};
use revm::JournaledState;

/// The state that a host would lend to a hook.
struct Host {
    env: Box<Env>,
    journaled_state: JournaledState,
    db: EmptyDBTyped<DatabaseError>,
    error: Result<(), EVMError<DatabaseError>>,
}

impl Host {
    fn new() -> Self {
        Host {
            env: Box::default(),
            journaled_state: JournaledState::new(SpecId::LATEST, HashSet::default()),
            db: EmptyDBTyped::new(),
            error: Ok(()),
        }
    }

    fn view(&mut self) -> InnerEvmContextWrap<'_, '_> {
        InnerEvmContextWrap {
            env: &mut self.env,
            journaled_state: &mut self.journaled_state,
            db: StateAccessor(&mut self.db),
            error: &mut self.error,
        }
    }
}

fn address(byte: u8) -> Address {
    Address::repeat_byte(byte)
}

fn call_inputs() -> CallInputs {
    CallInputs {
        input: Bytes::from(vec![0xde, 0xad]),
        return_memory_offset: 4..36,
        gas_limit: 21_000,
        bytecode_address: address(1),
        target_address: address(1),
        caller: address(2),
        value: CallValue::Transfer(U256::from(7u64)),
        scheme: CallScheme::Call,
        is_static: false,
        is_eof: false,
    }
}

fn create_inputs() -> CreateInputs {
    CreateInputs {
        caller: address(2),
        scheme: CreateScheme::Create,
        value: U256::from(3u64),
        init_code: Bytes::from(vec![0x60, 0x00]),
        gas_limit: 50_000,
    }
}

fn returned(output: Vec<u8>, gas: u64) -> InterpreterResult {
    InterpreterResult::new(InstructionResult::Return, Bytes::from(output), Gas::new(gas))
}

fn log_record(byte: u8) -> Log {
    Log {
        address: address(byte),
        data: LogData::new_unchecked(vec![B256::repeat_byte(byte)], Bytes::from(vec![byte])),
    }
}

/// Counts log records and remembers who emitted them.
#[derive(Clone, Debug, PartialEq)]
struct LogCounter {
    count: u64,
    emitters: Vec<Address>,
}

impl LogCounter {
    fn new() -> Self {
        LogCounter { count: 0, emitters: Vec::new() }
    }
}

impl CustomizableInspector for LogCounter {
    fn as_any(&self) -> AnyRef<'_> {
        AnyRef(self)
    }

    fn into_box_any(self: Box<Self>) -> AnyBox {
        AnyBox(self)
    }

    fn as_any_mut(&mut self) -> AnyMut<'_> {
        AnyMut(self)
    }

    fn clone_box(&self) -> BoxedInspector {
        BoxedInspector(Box::new(self.clone()))
    }

    fn log(&mut self, _interp: &mut Interpreter, _context: InnerEvmContextWrap<'_, '_>, log: &Log) {
        self.count += 1;
        self.emitters.push(log.address);
    }
}

/// Redirects every call and create, answers each with an outcome of its own,
/// rewrites outcomes, halts frames and reports a failure.
#[derive(Clone, Debug, PartialEq)]
struct Meddler {
    destroyed: Vec<(Address, Address, U256)>,
}

impl CustomizableInspector for Meddler {
    fn as_any(&self) -> AnyRef<'_> {
        AnyRef(self)
    }

    fn into_box_any(self: Box<Self>) -> AnyBox {
        AnyBox(self)
    }

    fn as_any_mut(&mut self) -> AnyMut<'_> {
        AnyMut(self)
    }

    fn clone_box(&self) -> BoxedInspector {
        BoxedInspector(Box::new(self.clone()))
    }

    fn initialize_interp(&mut self, interp: &mut Interpreter, _context: InnerEvmContextWrap<'_, '_>) {
        interp.instruction_result = InstructionResult::Stop;
    }

    fn step(&mut self, _interp: &mut Interpreter, context: InnerEvmContextWrap<'_, '_>) {
        if context.error.is_ok() {
            *context.error =
                Err(EVMError::Database(DatabaseError { message: "lookup failed".to_string() }));
        }
    }

    fn step_end(&mut self, interp: &mut Interpreter, _context: InnerEvmContextWrap<'_, '_>) {
        interp.instruction_result = InstructionResult::OutOfGas;
    }

    fn call(
        &mut self,
        _context: InnerEvmContextWrap<'_, '_>,
        inputs: &mut CallInputs,
    ) -> Option<CallOutcome> {
        inputs.target_address = address(9);
        Some(CallOutcome::new(returned(vec![1, 2, 3], 100), 0..3))
    }

    fn call_end(
        &mut self,
        _context: InnerEvmContextWrap<'_, '_>,
        _inputs: &CallInputs,
        mut outcome: CallOutcome,
    ) -> CallOutcome {
        outcome.result.result = InstructionResult::Revert;
        outcome
    }

    fn create(
        &mut self,
        _context: InnerEvmContextWrap<'_, '_>,
        inputs: &mut CreateInputs,
    ) -> Option<CreateOutcome> {
        inputs.gas_limit = 1;
        Some(CreateOutcome::new(returned(vec![4], 5), Some(address(8))))
    }

    fn create_end(
        &mut self,
        _context: InnerEvmContextWrap<'_, '_>,
        _inputs: &CreateInputs,
        mut outcome: CreateOutcome,
    ) -> CreateOutcome {
        outcome.address = None;
        outcome
    }

    fn eofcreate(
        &mut self,
        _context: InnerEvmContextWrap<'_, '_>,
        inputs: &mut EOFCreateInputs,
    ) -> Option<CreateOutcome> {
        inputs.gas_limit = 2;
        Some(CreateOutcome::new(returned(vec![6], 7), Some(address(7))))
    }

    fn eofcreate_end(
        &mut self,
        _context: InnerEvmContextWrap<'_, '_>,
        _inputs: &EOFCreateInputs,
        mut outcome: CreateOutcome,
    ) -> CreateOutcome {
        outcome.address = Some(address(6));
        outcome
    }

    fn selfdestruct(&mut self, contract: Address, target: Address, value: U256) {
        self.destroyed.push((contract, target, value));
    }
}

#[test]
fn get_inspector_returns_the_wrapped_observer() {
    let observer = LogCounter { count: 4, emitters: vec![address(1), address(2)] };
    let handle = Customizable::new(observer.clone());
    assert_eq!(handle.get_inspector::<LogCounter>(), Some(&observer));
}

#[test]
fn get_inspector_of_another_type_is_none() {
    let handle = Customizable::new(LogCounter::new());
    assert!(handle.get_inspector::<Meddler>().is_none());
    assert!(handle.get_inspector::<DefaultInspector>().is_none());
    // The miss leaves the handle as it was.
    assert_eq!(handle.get_inspector::<LogCounter>(), Some(&LogCounter::new()));
}

#[test]
fn get_inspector_can_be_asked_again() {
    let handle = Customizable::new(Meddler { destroyed: vec![] });
    let first = handle.get_inspector::<Meddler>().cloned();
    let second = handle.get_inspector::<Meddler>().cloned();
    assert_eq!(first, Some(Meddler { destroyed: vec![] }));
    assert_eq!(first, second);
}

#[test]
fn three_logs_are_counted_and_read_back() {
    let mut handle = Customizable::new(LogCounter::new());
    let mut host = Host::new();
    let mut interp = Interpreter::default();
    for byte in [0x11u8, 0x22, 0x33] {
        handle.log(&mut interp, host.view(), &log_record(byte));
    }
    let counter = handle.get_inspector::<LogCounter>().unwrap();
    assert_eq!(counter.count, 3);
    assert_eq!(counter.emitters, vec![address(0x11), address(0x22), address(0x33)]);
    assert_eq!(
        handle.take_inspector::<LogCounter>(),
        Some(LogCounter { count: 3, emitters: vec![address(0x11), address(0x22), address(0x33)] })
    );
}

#[test]
fn clone_starts_from_what_the_handle_holds() {
    let handle = Customizable::new(LogCounter { count: 2, emitters: vec![address(5), address(6)] });
    let copy = handle.clone();
    assert_eq!(copy.get_inspector::<LogCounter>(), handle.get_inspector::<LogCounter>());
    assert_eq!(copy.get_inspector::<LogCounter>().unwrap().count, 2);
}

#[test]
fn clones_collect_apart_from_each_other() {
    let mut first = Customizable::new(LogCounter::new());
    let mut host = Host::new();
    let mut interp = Interpreter::default();
    first.log(&mut interp, host.view(), &log_record(1));

    let mut copy = first.clone();
    copy.log(&mut interp, host.view(), &log_record(2));
    copy.log(&mut interp, host.view(), &log_record(3));
    assert_eq!(first.get_inspector::<LogCounter>().unwrap().count, 1);
    assert_eq!(first.get_inspector::<LogCounter>().unwrap().emitters, vec![address(1)]);
    assert_eq!(copy.get_inspector::<LogCounter>().unwrap().count, 3);

    first.log(&mut interp, host.view(), &log_record(4));
    assert_eq!(first.get_inspector::<LogCounter>().unwrap().emitters, vec![address(1), address(4)]);
    assert_eq!(
        copy.get_inspector::<LogCounter>().unwrap().emitters,
        vec![address(1), address(2), address(3)]
    );
}

#[test]
fn clone_outlives_the_handle_it_came_from() {
    let first = Customizable::new(LogCounter { count: 9, emitters: vec![] });
    let copy = first.clone();
    drop(first);
    assert_eq!(copy.take_inspector::<LogCounter>(), Some(LogCounter { count: 9, emitters: vec![] }));
}

#[test]
fn take_inspector_of_another_type_is_none() {
    let handle = Customizable::new(LogCounter { count: 1, emitters: vec![address(1)] });
    assert_eq!(handle.take_inspector::<Meddler>(), None);
}

#[test]
fn take_inspector_returns_the_owned_observer() {
    let observer = Meddler { destroyed: vec![(address(1), address(2), U256::from(3u64))] };
    let handle = Customizable::new(observer.clone());
    let owned: Option<Meddler> = handle.take_inspector::<Meddler>();
    assert_eq!(owned, Some(observer));
}

#[test]
fn taken_unboxes_a_cast_that_succeeded() {
    assert_eq!(taken::<u32>(Ok(Box::new(5))), Some(5));
    assert_eq!(
        taken::<LogCounter>(Ok(Box::new(LogCounter { count: 7, emitters: vec![address(3)] }))),
        Some(LogCounter { count: 7, emitters: vec![address(3)] })
    );
}

#[test]
fn taken_drops_a_cast_that_failed() {
    assert_eq!(taken::<u32>(Err(AnyBox(Box::new("another type")))), None);
    assert_eq!(taken::<LogCounter>(Err(AnyBox(Box::new(5u32)))), None);
}

#[test]
fn default_handle_holds_the_default_inspector() {
    let handle = Customizable::default();
    assert!(handle.get_inspector::<DefaultInspector>().is_some());
    assert!(handle.get_inspector::<LogCounter>().is_none());
    assert!(handle.clone().take_inspector::<DefaultInspector>().is_some());
    assert!(handle.take_inspector::<DefaultInspector>().is_some());
}

#[test]
fn default_inspector_is_reached_through_every_accessor() {
    let mut observer = DefaultInspector::default();
    assert!(observer.as_any().0.downcast_ref::<DefaultInspector>().is_some());
    assert!(observer.as_any().0.downcast_ref::<LogCounter>().is_none());
    assert!(observer.as_any_mut().0.downcast_mut::<DefaultInspector>().is_some());
    assert!(observer.as_any_mut().0.downcast_mut::<u8>().is_none());
    let copy = observer.clone_box().0;
    assert!(copy.as_any().0.is::<DefaultInspector>());
    assert!(Box::new(observer).into_box_any().0.downcast::<DefaultInspector>().is_ok());
}

#[test]
fn default_handle_leaves_frames_and_steps_alone() {
    let mut handle = Customizable::default();
    let mut host = Host::new();
    let untouched = Host::new();
    let mut interp = Interpreter::default();

    handle.initialize_interp(&mut interp, host.view());
    handle.step(&mut interp, host.view());
    handle.step_end(&mut interp, host.view());
    handle.log(&mut interp, host.view(), &log_record(1));
    handle.selfdestruct(address(1), address(2), U256::from(10u64));

    let fresh = Interpreter::default();
    assert_eq!(interp.instruction_result, InstructionResult::Continue);
    assert_eq!(interp.gas, fresh.gas);
    assert_eq!(interp.next_action, fresh.next_action);
    assert_eq!(interp.stack.len(), 0);
    assert_eq!(interp.return_data_buffer, fresh.return_data_buffer);
    assert_eq!(host.error, Ok(()));
    assert_eq!(host.env, untouched.env);
    assert_eq!(host.journaled_state, untouched.journaled_state);
}

#[test]
fn default_handle_leaves_calls_alone() {
    let mut handle = Customizable::default();
    let mut host = Host::new();
    let untouched = Host::new();

    let mut inputs = call_inputs();
    assert_eq!(handle.call(host.view(), &mut inputs), None);
    assert_eq!(inputs, call_inputs());

    let outcome = CallOutcome::new(returned(vec![9, 9], 1_000), 0..2);
    assert_eq!(handle.call_end(host.view(), &inputs, outcome.clone()), outcome);
    assert_eq!(inputs, call_inputs());

    assert_eq!(host.error, Ok(()));
    assert_eq!(host.env, untouched.env);
    assert_eq!(host.journaled_state, untouched.journaled_state);
}

#[test]
fn default_handle_leaves_creates_alone() {
    let mut handle = Customizable::default();
    let mut host = Host::new();
    let untouched = Host::new();

    let mut inputs = create_inputs();
    assert_eq!(handle.create(host.view(), &mut inputs), None);
    assert_eq!(inputs, create_inputs());
    let outcome = CreateOutcome::new(returned(vec![1], 10), Some(address(4)));
    assert_eq!(handle.create_end(host.view(), &inputs, outcome.clone()), outcome);

    let mut eof_inputs = EOFCreateInputs::default();
    assert_eq!(handle.eofcreate(host.view(), &mut eof_inputs), None);
    assert_eq!(eof_inputs, EOFCreateInputs::default());
    let eof_outcome = CreateOutcome::new(returned(vec![2], 20), None);
    assert_eq!(handle.eofcreate_end(host.view(), &eof_inputs, eof_outcome.clone()), eof_outcome);

    assert_eq!(host.error, Ok(()));
    assert_eq!(host.env, untouched.env);
    assert_eq!(host.journaled_state, untouched.journaled_state);
}

#[test]
fn default_handle_stays_a_no_op() {
    let mut handle = Customizable::default();
    let mut host = Host::new();
    for _ in 0..5 {
        let mut inputs = call_inputs();
        assert_eq!(handle.call(host.view(), &mut inputs), None);
        assert_eq!(inputs, call_inputs());
    }
    assert_eq!(host.error, Ok(()));
}

#[test]
fn an_observer_overrides_only_the_hooks_it_needs() {
    let mut handle = Customizable::new(LogCounter::new());
    let mut host = Host::new();
    let mut inputs = call_inputs();
    assert_eq!(handle.call(host.view(), &mut inputs), None);
    assert_eq!(inputs, call_inputs());
    let outcome = CreateOutcome::new(returned(vec![], 0), None);
    assert_eq!(handle.create_end(host.view(), &create_inputs(), outcome.clone()), outcome);
    assert_eq!(handle.get_inspector::<LogCounter>().unwrap().count, 0);
}

#[test]
fn call_hands_back_the_override_and_the_rewritten_request() {
    let mut handle = Customizable::new(Meddler { destroyed: vec![] });
    let mut host = Host::new();
    let mut inputs = call_inputs();
    let outcome = handle.call(host.view(), &mut inputs);
    assert_eq!(outcome, Some(CallOutcome::new(returned(vec![1, 2, 3], 100), 0..3)));
    assert_eq!(inputs.target_address, address(9));
    assert_eq!(inputs.bytecode_address, address(1));
    assert_eq!(inputs.gas_limit, 21_000);
}

#[test]
fn call_end_hands_back_the_amended_outcome() {
    let mut handle = Customizable::new(Meddler { destroyed: vec![] });
    let mut host = Host::new();
    let outcome = CallOutcome::new(returned(vec![5], 42), 0..1);
    let amended = handle.call_end(host.view(), &call_inputs(), outcome);
    assert_eq!(amended.result.result, InstructionResult::Revert);
    assert_eq!(amended.result.output, Bytes::from(vec![5]));
    assert_eq!(amended.result.gas, Gas::new(42));
    assert_eq!(amended.memory_offset, 0..1);
}

#[test]
fn create_hooks_hand_back_what_the_observer_decided() {
    let mut handle = Customizable::new(Meddler { destroyed: vec![] });
    let mut host = Host::new();

    let mut inputs = create_inputs();
    let outcome = handle.create(host.view(), &mut inputs);
    assert_eq!(outcome, Some(CreateOutcome::new(returned(vec![4], 5), Some(address(8)))));
    assert_eq!(inputs.gas_limit, 1);
    assert_eq!(inputs.caller, address(2));

    let ended = handle.create_end(
        host.view(),
        &inputs,
        CreateOutcome::new(returned(vec![1], 1), Some(address(3))),
    );
    assert_eq!(ended, CreateOutcome::new(returned(vec![1], 1), None));
}

#[test]
fn eofcreate_hooks_hand_back_what_the_observer_decided() {
    let mut handle = Customizable::new(Meddler { destroyed: vec![] });
    let mut host = Host::new();

    let mut inputs = EOFCreateInputs::default();
    let outcome = handle.eofcreate(host.view(), &mut inputs);
    assert_eq!(outcome, Some(CreateOutcome::new(returned(vec![6], 7), Some(address(7)))));
    assert_eq!(inputs.gas_limit, 2);

    let ended = handle.eofcreate_end(host.view(), &inputs, CreateOutcome::new(returned(vec![], 0), None));
    assert_eq!(ended, CreateOutcome::new(returned(vec![], 0), Some(address(6))));
}

#[test]
fn frame_hooks_reach_the_interpreter() {
    let mut handle = Customizable::new(Meddler { destroyed: vec![] });
    let mut host = Host::new();
    let mut interp = Interpreter::default();

    handle.initialize_interp(&mut interp, host.view());
    assert_eq!(interp.instruction_result, InstructionResult::Stop);
    assert_eq!(host.error, Ok(()));

    handle.step_end(&mut interp, host.view());
    assert_eq!(interp.instruction_result, InstructionResult::OutOfGas);
    assert_eq!(host.error, Ok(()));
}

#[test]
fn a_hook_reports_failure_through_the_error_slot() {
    let mut handle = Customizable::new(Meddler { destroyed: vec![] });
    let mut host = Host::new();
    let mut interp = Interpreter::default();
    handle.step(&mut interp, host.view());
    assert_eq!(
        host.error,
        Err(EVMError::Database(DatabaseError { message: "lookup failed".to_string() }))
    );
    assert_eq!(interp.instruction_result, InstructionResult::Continue);
}

#[test]
fn selfdestruct_reaches_the_observer() {
    let mut handle = Customizable::new(Meddler { destroyed: vec![] });
    handle.selfdestruct(address(1), address(2), U256::from(30u64));
    handle.selfdestruct(address(3), address(4), U256::ZERO);
    assert_eq!(
        handle.get_inspector::<Meddler>().unwrap().destroyed,
        vec![(address(1), address(2), U256::from(30u64)), (address(3), address(4), U256::ZERO)]
    );
}

#[test]
fn an_observer_reads_the_backing_state_through_the_view() {
    let mut host = Host::new();
    let view = host.view();
    let account = view.db.0.basic(address(1));
    assert_eq!(account, Ok(None));
    let slot = view.db.0.storage(address(1), U256::from(1u64));
    assert_eq!(slot, Ok(U256::ZERO));
}
