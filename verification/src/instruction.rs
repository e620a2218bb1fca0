//! Base instruction handlers.
//!
//! Opcode semantics are out of this layer's scope: a handler is whatever
//! the host's instruction table assigns to a slot. A handler is a
//! deterministic transformer of the machine state this layer models,
//! stated by its `effect`. The sample operations here exercise the
//! wrapping protocol; a real host supplies its own handlers.

use vstd::prelude::*;

use crate::machine::{ContextModel, EvmContext, InterpModel, Interpreter};
use crate::types::{copy_bytes, Address, Balance, InstructionResult, JournalEntry, LogModel, LogRecord};

verus! {

/// One base instruction handler: a deterministic transformer of the
/// interpreter and context state that this layer models.
pub trait Instruction: Sized + View {
    /// What executing this handler does to the modelled machine state.
    spec fn effect(op: Self::V, interp: InterpModel, ctx: ContextModel) -> (InterpModel, ContextModel);

    /// Executes the handler. Its whole observable effect on the
    /// modelled state is `effect`.
    fn execute(&self, interp: &mut Interpreter, ctx: &mut EvmContext)
        ensures
            (final(interp)@, final(ctx)@) == Self::effect(self@, old(interp)@, old(ctx)@),
    ;
}

/// A small family of concrete handlers, enough to drive every path of
/// the wrapping protocol: doing nothing, halting, journaling a log, and
/// journaling or missing an account destruction.
#[derive(Debug, PartialEq, Eq)]
pub enum SampleOp {
    /// Leaves the machine unchanged.
    Nop,
    /// Ends the dispatch with the given status.
    Halt { result: InstructionResult },
    /// Journals one log record, as a successful LOG does.
    EmitLog { address: Address, data: Vec<u8> },
    /// Journals an account destruction, as a successful SELFDESTRUCT
    /// does.
    Destroy { address: Address, target: Address, balance: Balance },
    /// Journals an unrelated entry, leaving the journal tail without a
    /// destruction record.
    Touch { address: Address },
}

/// Mathematical model of a [`SampleOp`].
pub enum SampleOpModel {
    Nop,
    Halt { result: InstructionResult },
    EmitLog { address: Address, data: Seq<u8> },
    Destroy { address: Address, target: Address, balance: Balance },
    Touch { address: Address },
}

impl View for SampleOp {
    type V = SampleOpModel;

    open spec fn view(&self) -> SampleOpModel {
        match self {
            SampleOp::Nop => SampleOpModel::Nop,
            SampleOp::Halt { result } => SampleOpModel::Halt { result: *result },
            SampleOp::EmitLog { address, data } => SampleOpModel::EmitLog {
                address: *address,
                data: data@,
            },
            SampleOp::Destroy { address, target, balance } => SampleOpModel::Destroy {
                address: *address,
                target: *target,
                balance: *balance,
            },
            SampleOp::Touch { address } => SampleOpModel::Touch { address: *address },
        }
    }
}

impl Instruction for SampleOp {
    open spec fn effect(op: SampleOpModel, interp: InterpModel, ctx: ContextModel) -> (InterpModel, ContextModel) {
        match op {
            SampleOpModel::Nop => (interp, ctx),
            SampleOpModel::Halt { result } => (
                InterpModel {
                    pc: interp.pc,
                    instruction_result: result,
                    pending_output: interp.pending_output,
                },
                ctx,
            ),
            SampleOpModel::EmitLog { address, data } => (
                interp,
                ContextModel {
                    journal: ctx.journal,
                    logs: ctx.logs.push(LogModel { address, data }),
                },
            ),
            SampleOpModel::Destroy { address, target, balance } => (
                interp,
                ContextModel {
                    journal: ctx.journal.push(
                        JournalEntry::AccountDestroyed { address, target, had_balance: balance },
                    ),
                    logs: ctx.logs,
                },
            ),
            SampleOpModel::Touch { address } => (
                interp,
                ContextModel {
                    journal: ctx.journal.push(JournalEntry::AccountTouched { address }),
                    logs: ctx.logs,
                },
            ),
        }
    }

    fn execute(&self, interp: &mut Interpreter, ctx: &mut EvmContext) {
        match self {
            SampleOp::Nop => {},
            SampleOp::Halt { result } => {
                interp.instruction_result = *result;
            },
            SampleOp::EmitLog { address, data } => {
                ctx.logs.push(LogRecord { address: *address, data: copy_bytes(data) });
                proof {
                    assert(ctx@.logs =~= old(ctx)@.logs.push(
                        LogModel { address: *address, data: data@ },
                    ));
                }
            },
            SampleOp::Destroy { address, target, balance } => {
                ctx.journal.push(
                    JournalEntry::AccountDestroyed {
                        address: *address,
                        target: *target,
                        had_balance: *balance,
                    },
                );
            },
            SampleOp::Touch { address } => {
                ctx.journal.push(JournalEntry::AccountTouched { address: *address });
            },
        }
    }
}

} // verus!
