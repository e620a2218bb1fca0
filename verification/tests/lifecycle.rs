use evm_inspect::call_outcome::{CallOutcome, InterpreterResult};
use evm_inspect::host::{failure_result, ScriptedHost};
use evm_inspect::inspector::ScriptedInspector;
use evm_inspect::lifecycle::{create_first_frame, frame_return, sub_call, sub_create};
use evm_inspect::machine::{
    EvmContext, Frame, FrameData, FrameOrResult, Interpreter, PendingOutput,
};
use evm_inspect::types::{CallInputs, CreateInputs, Gas, InstructionResult, MemRange, TransactTo, TxEnv};

fn result_with(status: InstructionResult, output: Vec<u8>, gas: Gas) -> InterpreterResult {
    InterpreterResult { result: status, output, gas }
}

fn zero_gas() -> Gas {
    Gas { limit: 0, remaining: 0, refunded: 0 }
}

fn call_frame(pc: usize) -> Frame {
    Frame { data: FrameData::Call, interpreter: Interpreter::new(pc) }
}

fn sub_call_inputs() -> CallInputs {
    CallInputs { target: 2, caller: 1, value: 0, input: vec![7], gas_limit: 1000 }
}

#[test]
fn test_transaction_call_short_circuit() {
    // A transaction targeting an account, with an observer that
    // synthesizes (halt, zero gas, 0x1234) from its call hook: that
    // tuple is the transaction's entire result, and no frame is built
    // and no instruction runs.
    let tx = TxEnv { caller: 1, transact_to: TransactTo::Call(2), value: 0, data: vec![] };
    let mut inspector = ScriptedInspector::new();
    inspector.call_response = Some((
        result_with(InstructionResult::Stop, vec![0x12, 0x34], zero_gas()),
        MemRange { start: 0, end: 0 },
    ));
    let mut host = ScriptedHost::new();
    let mut ctx = EvmContext::new();
    let r = create_first_frame(&mut inspector, &mut host, &mut ctx, &tx, 21000);
    match r {
        FrameOrResult::Outcome(result) => {
            assert_eq!(result.result, InstructionResult::Stop);
            assert_eq!(result.output, vec![0x12, 0x34]);
            assert_eq!(result.gas, zero_gas());
        }
        FrameOrResult::Frame(_) => panic!("the synthesized outcome must stand for the frame"),
    }
    assert_eq!(inspector.calls, 1);
    assert_eq!(inspector.steps, 0);
    assert_eq!(host.call_frames, 0);
    assert_eq!(host.create_frames, 0);
}

#[test]
fn test_transaction_call_builds_real_frame_with_empty_range() {
    let tx = TxEnv { caller: 1, transact_to: TransactTo::Call(2), value: 5, data: vec![8, 9] };
    let mut inspector = ScriptedInspector::new();
    let mut host = ScriptedHost::new();
    host.frame_responses = vec![FrameOrResult::Frame(call_frame(0))];
    let mut ctx = EvmContext::new();
    let r = create_first_frame(&mut inspector, &mut host, &mut ctx, &tx, 21000);
    assert!(matches!(r, FrameOrResult::Frame(_)));
    assert_eq!(inspector.calls, 1);
    assert_eq!(host.call_frames, 1);
    // The top-level call has no caller memory to write into.
    assert_eq!(host.last_range, Some(MemRange { start: 0, end: 0 }));
}

#[test]
fn test_transaction_create_short_circuit() {
    let tx = TxEnv { caller: 1, transact_to: TransactTo::Create, value: 0, data: vec![0x60] };
    let mut inspector = ScriptedInspector::new();
    inspector.create_response = Some((
        result_with(InstructionResult::Revert, vec![], zero_gas()),
        Some(77),
    ));
    let mut host = ScriptedHost::new();
    let mut ctx = EvmContext::new();
    let r = create_first_frame(&mut inspector, &mut host, &mut ctx, &tx, 50000);
    match r {
        FrameOrResult::Outcome(result) => {
            assert_eq!(result.result, InstructionResult::Revert);
        }
        FrameOrResult::Frame(_) => panic!("the synthesized outcome must stand for the frame"),
    }
    assert_eq!(inspector.creates, 1);
    assert_eq!(host.create_frames, 0);
}

#[test]
fn test_sub_call_short_circuit_writes_pending_output() {
    // The synthesized outcome lands byte-for-byte, with the same gas,
    // in the current frame's pending-output slot; no frame is pushed.
    let gas = Gas { limit: 77, remaining: 33, refunded: 1 };
    let mut inspector = ScriptedInspector::new();
    inspector.call_response = Some((
        result_with(InstructionResult::Return, vec![5, 6], gas),
        MemRange { start: 10, end: 12 },
    ));
    let mut host = ScriptedHost::new();
    let mut ctx = EvmContext::new();
    let mut frame = call_frame(3);
    let pushed = sub_call(
        &mut inspector,
        &mut host,
        &mut ctx,
        sub_call_inputs(),
        &mut frame,
        MemRange { start: 0, end: 4 },
    );
    assert!(pushed.is_none());
    assert_eq!(host.call_frames, 0);
    assert_eq!(
        frame.interpreter.pending_output,
        PendingOutput::Call(CallOutcome::new(
            result_with(InstructionResult::Return, vec![5, 6], gas),
            MemRange { start: 10, end: 12 },
        ))
    );
}

#[test]
fn test_sub_call_pushes_and_initializes_new_frame() {
    let mut inspector = ScriptedInspector::new();
    let mut host = ScriptedHost::new();
    host.frame_responses = vec![FrameOrResult::Frame(call_frame(0))];
    let mut ctx = EvmContext::new();
    let mut frame = call_frame(3);
    let pushed = sub_call(
        &mut inspector,
        &mut host,
        &mut ctx,
        sub_call_inputs(),
        &mut frame,
        MemRange { start: 0, end: 4 },
    );
    assert!(pushed.is_some());
    assert_eq!(inspector.inits, 1);
    assert_eq!(inspector.call_ends, 0);
    assert_eq!(frame.interpreter.pending_output, PendingOutput::Empty);
}

#[test]
fn test_sub_call_failure_reports_call_end() {
    // Frame construction fails (exhausted script): the observer still
    // sees call-end, and the failure lands in the pending-output slot
    // with the requested return range.
    let mut inspector = ScriptedInspector::new();
    let mut host = ScriptedHost::new();
    let mut ctx = EvmContext::new();
    let mut frame = call_frame(3);
    let range = MemRange { start: 2, end: 6 };
    let pushed = sub_call(
        &mut inspector,
        &mut host,
        &mut ctx,
        sub_call_inputs(),
        &mut frame,
        range,
    );
    assert!(pushed.is_none());
    assert_eq!(inspector.call_ends, 1);
    assert_eq!(
        frame.interpreter.pending_output,
        PendingOutput::Call(CallOutcome::new(failure_result(), range))
    );
}

#[test]
fn test_sub_create_short_circuit_writes_pending_output() {
    let mut inspector = ScriptedInspector::new();
    inspector.create_response = Some((
        result_with(InstructionResult::Return, vec![1], zero_gas()),
        Some(99),
    ));
    let mut host = ScriptedHost::new();
    let mut ctx = EvmContext::new();
    let mut frame = call_frame(3);
    let inputs = CreateInputs { caller: 1, value: 0, init_code: vec![2], gas_limit: 500 };
    let pushed = sub_create(&mut inspector, &mut host, &mut ctx, inputs, &mut frame);
    assert!(pushed.is_none());
    assert_eq!(host.create_frames, 0);
    assert_eq!(
        frame.interpreter.pending_output,
        PendingOutput::Create(
            result_with(InstructionResult::Return, vec![1], zero_gas()),
            Some(99),
        )
    );
}

#[test]
fn test_sub_create_failure_reports_create_end_with_current_address() {
    let mut inspector = ScriptedInspector::new();
    let mut host = ScriptedHost::new();
    let mut ctx = EvmContext::new();
    let mut frame = Frame {
        data: FrameData::Create { created_address: 42 },
        interpreter: Interpreter::new(3),
    };
    let inputs = CreateInputs { caller: 1, value: 0, init_code: vec![2], gas_limit: 500 };
    let pushed = sub_create(&mut inspector, &mut host, &mut ctx, inputs, &mut frame);
    assert!(pushed.is_none());
    assert_eq!(inspector.create_ends, 1);
    assert_eq!(
        frame.interpreter.pending_output,
        PendingOutput::Create(failure_result(), Some(42))
    );
}

#[test]
fn test_frame_return_create_dispatches_create_end_once() {
    let mut inspector = ScriptedInspector::new();
    inspector.create_end_response = Some((
        result_with(InstructionResult::Return, vec![3], zero_gas()),
        Some(9),
    ));
    let mut host = ScriptedHost::new();
    let mut ctx = EvmContext::new();
    let mut child = Frame {
        data: FrameData::Create { created_address: 5 },
        interpreter: Interpreter::new(0),
    };
    let mut parent = call_frame(8);
    let r = frame_return(
        &mut inspector,
        &mut host,
        &mut ctx,
        &mut child,
        &mut parent,
        result_with(InstructionResult::Stop, vec![], zero_gas()),
    );
    assert!(r.is_none());
    assert_eq!(inspector.create_ends, 1);
    assert_eq!(inspector.call_ends, 0);
    // The observer's replacement address overwrites the frame's slot.
    assert_eq!(child.data, FrameData::Create { created_address: 9 });
    // The host merges the observer-rewritten result.
    assert_eq!(host.frame_returns, 1);
    assert_eq!(
        host.last_merged,
        Some(result_with(InstructionResult::Return, vec![3], zero_gas()))
    );
}

#[test]
fn test_frame_return_call_dispatches_call_end_once() {
    let mut inspector = ScriptedInspector::new();
    inspector.call_end_response = Some(result_with(InstructionResult::Revert, vec![4], zero_gas()));
    let mut host = ScriptedHost::new();
    host.merge_results = vec![result_with(InstructionResult::Stop, vec![], zero_gas())];
    let mut ctx = EvmContext::new();
    let mut child = call_frame(0);
    let mut parent = call_frame(8);
    let r = frame_return(
        &mut inspector,
        &mut host,
        &mut ctx,
        &mut child,
        &mut parent,
        result_with(InstructionResult::Stop, vec![1], zero_gas()),
    );
    assert_eq!(inspector.call_ends, 1);
    assert_eq!(inspector.create_ends, 0);
    assert_eq!(
        host.last_merged,
        Some(result_with(InstructionResult::Revert, vec![4], zero_gas()))
    );
    assert_eq!(r, Some(result_with(InstructionResult::Stop, vec![], zero_gas())));
}
