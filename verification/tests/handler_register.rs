use evm_inspect::handler_register::{
    inspector_handle_register, inspector_instruction, EvmHandler, GetInspector, InstructionTables,
    WrappedInstruction, OPCODE_LOG0, OPCODE_LOG4, OPCODE_SELFDESTRUCT,
};
use evm_inspect::inspector::{NoOpInspector, ScriptedInspector};
use evm_inspect::instruction::{Instruction, SampleOp};
use evm_inspect::machine::{EvmContext, Interpreter};
use evm_inspect::types::{InstructionResult, LogRecord};

fn nop_table() -> Vec<SampleOp> {
    let mut table = Vec::new();
    for _ in 0..256 {
        table.push(SampleOp::Nop);
    }
    table
}

#[test]
fn test_make_boxed_instruction_table() {
    let mut handler = EvmHandler {
        instruction_table: Some(InstructionTables::Plain(nop_table())),
    };
    inspector_handle_register(&mut handler);
    match handler.instruction_table {
        Some(InstructionTables::Inspected(wrapped)) => {
            assert_eq!(wrapped.len(), 256);
            for (i, slot) in wrapped.iter().enumerate() {
                if i >= OPCODE_LOG0 as usize && i <= OPCODE_LOG4 as usize {
                    assert!(matches!(slot, WrappedInstruction::Log(_)));
                } else if i == OPCODE_SELFDESTRUCT as usize {
                    assert!(matches!(slot, WrappedInstruction::Selfdestruct(_)));
                } else {
                    assert!(matches!(slot, WrappedInstruction::Plain(_)));
                }
            }
        }
        _ => panic!("registration must leave a wrapped table"),
    }
}

#[test]
fn test_inspector_instruction_wraps_plain() {
    let wrapped = inspector_instruction(SampleOp::Halt { result: InstructionResult::Stop });
    assert!(matches!(wrapped, WrappedInstruction::Plain(SampleOp::Halt { .. })));
}

#[test]
fn test_get_inspector_blanket_impl() {
    // An observer stands as its own external state.
    let mut inspector = ScriptedInspector::new();
    inspector.get_inspector().halt_on_step = Some(InstructionResult::Stop);
    assert_eq!(inspector.halt_on_step, Some(InstructionResult::Stop));
}

#[test]
fn test_transparency_with_noop_inspector() {
    // Running through the wrapped slot with the no-op observer leaves
    // exactly the state the undecorated handler leaves.
    let op = SampleOp::EmitLog { address: 7, data: vec![1, 2] };
    let wrapped = WrappedInstruction::Log(SampleOp::EmitLog { address: 7, data: vec![1, 2] });

    let mut interp = Interpreter::new(5);
    let mut ctx = EvmContext::new();
    let mut inspector = NoOpInspector;
    wrapped.run(&mut inspector, &mut interp, &mut ctx);

    let mut interp_direct = Interpreter::new(5);
    let mut ctx_direct = EvmContext::new();
    op.execute(&mut interp_direct, &mut ctx_direct);

    assert_eq!(interp, interp_direct);
    assert_eq!(ctx, ctx_direct);
}

#[test]
fn test_step_observes_rewound_pc() {
    // The pre-hook sees the opcode's own address, one byte before the
    // advanced pointer; the post-hook sees the advanced pointer.
    let wrapped = WrappedInstruction::Plain(SampleOp::Nop);
    let mut interp = Interpreter::new(5);
    let mut ctx = EvmContext::new();
    let mut inspector = ScriptedInspector::new();
    wrapped.run(&mut inspector, &mut interp, &mut ctx);
    assert_eq!(inspector.seen_pcs, vec![4]);
    assert_eq!(inspector.seen_end_pcs, vec![5]);
    assert_eq!(interp.pc, 5);
}

#[test]
fn test_abort_on_preempt() {
    // A pre-hook that sets a non-continue status skips the real body
    // and the post-hook entirely.
    let wrapped = WrappedInstruction::Plain(SampleOp::EmitLog { address: 1, data: vec![5] });
    let mut interp = Interpreter::new(5);
    let mut ctx = EvmContext::new();
    let mut inspector = ScriptedInspector::new();
    inspector.halt_on_step = Some(InstructionResult::Revert);
    wrapped.run(&mut inspector, &mut interp, &mut ctx);
    assert_eq!(inspector.steps, 1);
    assert_eq!(inspector.step_ends, 0);
    assert!(ctx.logs.is_empty());
    assert_eq!(interp.instruction_result, InstructionResult::Revert);
}

#[test]
fn test_log_hook_fires_exactly_once() {
    let wrapped = WrappedInstruction::Log(SampleOp::EmitLog { address: 9, data: vec![0xde, 0xad] });
    let mut interp = Interpreter::new(1);
    let mut ctx = EvmContext::new();
    let mut inspector = ScriptedInspector::new();
    wrapped.run(&mut inspector, &mut interp, &mut ctx);
    assert_eq!(inspector.logs, 1);
    assert_eq!(inspector.last_log, Some((9, vec![0xde, 0xad])));
    assert_eq!(
        ctx.logs,
        vec![LogRecord { address: 9, data: vec![0xde, 0xad] }]
    );
}

#[test]
fn test_log_hook_skipped_when_no_log_was_journaled() {
    // A LOG that fails (here: a stack underflow before journaling)
    // appends nothing, and the hook must silently not fire.
    let wrapped = WrappedInstruction::Log(SampleOp::Halt {
        result: InstructionResult::StackUnderflow,
    });
    let mut interp = Interpreter::new(1);
    let mut ctx = EvmContext::new();
    let mut inspector = ScriptedInspector::new();
    wrapped.run(&mut inspector, &mut interp, &mut ctx);
    assert_eq!(inspector.logs, 0);
    assert_eq!(inspector.last_log, None);
}

#[test]
fn test_selfdestruct_hook_fires_with_journaled_fields() {
    let wrapped = WrappedInstruction::Selfdestruct(SampleOp::Destroy {
        address: 11,
        target: 22,
        balance: 333,
    });
    let mut interp = Interpreter::new(1);
    let mut ctx = EvmContext::new();
    let mut inspector = ScriptedInspector::new();
    wrapped.run(&mut inspector, &mut interp, &mut ctx);
    assert_eq!(inspector.selfdestructs, 1);
    assert_eq!(inspector.last_selfdestruct, Some((11, 22, 333)));
}

#[test]
fn test_selfdestruct_hook_skipped_on_other_tail_entry() {
    let wrapped = WrappedInstruction::Selfdestruct(SampleOp::Touch { address: 11 });
    let mut interp = Interpreter::new(1);
    let mut ctx = EvmContext::new();
    let mut inspector = ScriptedInspector::new();
    wrapped.run(&mut inspector, &mut interp, &mut ctx);
    assert_eq!(inspector.selfdestructs, 0);
}

#[test]
fn test_selfdestruct_hook_skipped_on_empty_journal() {
    let wrapped = WrappedInstruction::Selfdestruct(SampleOp::Nop);
    let mut interp = Interpreter::new(1);
    let mut ctx = EvmContext::new();
    let mut inspector = ScriptedInspector::new();
    wrapped.run(&mut inspector, &mut interp, &mut ctx);
    assert_eq!(inspector.selfdestructs, 0);
    assert_eq!(inspector.steps, 1);
    assert_eq!(inspector.step_ends, 1);
}
