//! The machine state this layer touches: the interpreter fields it
//! reads and writes, the execution context it inspects, and the frames
//! whose construction and teardown it intercepts.
//!
//! The full interpreter and frame internals are out of scope; only the
//! fields the instrumentation protocol observes are modelled here.

use vstd::prelude::*;

use crate::call_outcome::{CallOutcome, InterpreterResult, OutcomeModel, ResultModel};
use crate::types::{Address, InstructionResult, JournalEntry, LogModel, LogRecord, MemRange};

verus! {

/// The result a short-circuited or failed sub-execution left in the
/// current frame, waiting to be consumed in place of a child frame's
/// return.
#[derive(Debug, PartialEq, Eq)]
pub enum PendingOutput {
    /// No sub-execution result is pending.
    Empty,
    /// A call sub-execution completed without a child frame.
    Call(CallOutcome),
    /// A create sub-execution completed without a child frame.
    Create(InterpreterResult, Option<Address>),
}

/// Mathematical model of a [`PendingOutput`].
pub enum PendingModel {
    Empty,
    Call(OutcomeModel),
    Create(ResultModel, Option<Address>),
}

impl View for PendingOutput {
    type V = PendingModel;

    open spec fn view(&self) -> PendingModel {
        match self {
            PendingOutput::Empty => PendingModel::Empty,
            PendingOutput::Call(outcome) => PendingModel::Call(outcome@),
            PendingOutput::Create(result, address) => PendingModel::Create(result@, *address),
        }
    }
}

/// The interpreter fields the instrumentation layer touches.
#[derive(Debug, PartialEq, Eq)]
pub struct Interpreter {
    /// Index of the next byte to dispatch. Dispatch fetches the opcode
    /// and advances this before the handler runs.
    pub pc: usize,
    /// The status of the current dispatch.
    pub instruction_result: InstructionResult,
    /// The pending result of a sub-execution that produced no child
    /// frame.
    pub pending_output: PendingOutput,
}

/// Mathematical model of an [`Interpreter`].
pub struct InterpModel {
    pub pc: usize,
    pub instruction_result: InstructionResult,
    pub pending_output: PendingModel,
}

impl View for Interpreter {
    type V = InterpModel;

    open spec fn view(&self) -> InterpModel {
        InterpModel {
            pc: self.pc,
            instruction_result: self.instruction_result,
            pending_output: self.pending_output@,
        }
    }
}

impl Interpreter {
    /// A fresh interpreter about to dispatch at `pc`, still continuing.
    pub fn new(pc: usize) -> (r: Interpreter)
        ensures
            r@ == (InterpModel {
                pc,
                instruction_result: InstructionResult::Continue,
                pending_output: PendingModel::Empty,
            }),
    {
        Interpreter {
            pc,
            instruction_result: InstructionResult::Continue,
            pending_output: PendingOutput::Empty,
        }
    }
}

/// The execution context the hooks receive: the parts of the host state
/// this layer inspects. The journal is append-only and read here only at
/// its tail; the log list grows by one for each journaled log.
#[derive(Debug, PartialEq, Eq)]
pub struct EvmContext {
    /// The state-change journal of the current transaction.
    pub journal: Vec<JournalEntry>,
    /// The log records journaled so far.
    pub logs: Vec<LogRecord>,
}

/// Mathematical model of an [`EvmContext`].
pub struct ContextModel {
    pub journal: Seq<JournalEntry>,
    pub logs: Seq<LogModel>,
}

impl View for EvmContext {
    type V = ContextModel;

    open spec fn view(&self) -> ContextModel {
        ContextModel {
            journal: self.journal@,
            logs: self.logs@.map_values(|r: LogRecord| r@),
        }
    }
}

impl EvmContext {
    /// A context with an empty journal and no logs.
    pub fn new() -> (r: EvmContext)
        ensures
            r@.journal == Seq::<JournalEntry>::empty(),
            r@.logs == Seq::<LogModel>::empty(),
    {
        let r = EvmContext { journal: Vec::new(), logs: Vec::new() };
        proof {
            assert(r@.logs =~= Seq::<LogModel>::empty());
        }
        r
    }
}

/// What kind of frame is executing, and for a creation, the address of
/// the contract being created.
#[derive(Clone, Copy, Debug, PartialEq, Eq, Structural)]
pub enum FrameData {
    /// A contract-creation frame with its created address.
    Create { created_address: Address },
    /// A call frame.
    Call,
}

/// One nested execution frame: its tag and its interpreter.
#[derive(Debug, PartialEq, Eq)]
pub struct Frame {
    /// Call or create, with the created address for a creation.
    pub data: FrameData,
    /// The frame's interpreter.
    pub interpreter: Interpreter,
}

/// Mathematical model of a [`Frame`].
pub struct FrameModel {
    pub data: FrameData,
    pub interpreter: InterpModel,
}

impl View for Frame {
    type V = FrameModel;

    open spec fn view(&self) -> FrameModel {
        FrameModel { data: self.data, interpreter: self.interpreter@ }
    }
}

/// The frame model after a call sub-execution's result was written into
/// its pending-output slot.
pub open spec fn with_pending_call(f: FrameModel, result: ResultModel, range: MemRange) -> FrameModel {
    FrameModel {
        data: f.data,
        interpreter: InterpModel {
            pc: f.interpreter.pc,
            instruction_result: f.interpreter.instruction_result,
            pending_output: PendingModel::Call(
                OutcomeModel { interpreter_result: result, memory_offset: range },
            ),
        },
    }
}

/// The frame model after a create sub-execution's result was written
/// into its pending-output slot.
pub open spec fn with_pending_create(
    f: FrameModel,
    result: ResultModel,
    address: Option<Address>,
) -> FrameModel {
    FrameModel {
        data: f.data,
        interpreter: InterpModel {
            pc: f.interpreter.pc,
            instruction_result: f.interpreter.instruction_result,
            pending_output: PendingModel::Create(result, address),
        },
    }
}

impl Frame {
    /// The created address of a create frame; a call frame has none.
    pub fn created_address(&self) -> (r: Option<Address>)
        ensures
            r == created_address_of(self.data),
    {
        match self.data {
            FrameData::Create { created_address } => Some(created_address),
            FrameData::Call => None,
        }
    }

    /// Writes a call sub-execution's result into this frame's
    /// pending-output slot, in place of pushing a child frame.
    pub fn insert_call_output(&mut self, result: InterpreterResult, range: MemRange)
        requires
            range.wf(),
        ensures
            final(self)@ == with_pending_call(old(self)@, result@, range),
    {
        self.interpreter.pending_output = PendingOutput::Call(CallOutcome::new(result, range));
    }

    /// Writes a create sub-execution's result and created address into
    /// this frame's pending-output slot, in place of pushing a child
    /// frame.
    pub fn insert_create_output(&mut self, result: InterpreterResult, address: Option<Address>)
        ensures
            final(self)@ == with_pending_create(old(self)@, result@, address),
    {
        self.interpreter.pending_output = PendingOutput::Create(result, address);
    }
}

/// The created address stored in a frame tag, if it is a create frame.
pub open spec fn created_address_of(data: FrameData) -> Option<Address> {
    match data {
        FrameData::Create { created_address } => Some(created_address),
        FrameData::Call => None,
    }
}

/// What frame construction produced: a new frame to push, or an
/// immediate result when no frame could be created.
#[derive(Debug, PartialEq, Eq)]
pub enum FrameOrResult {
    /// A new frame to push onto the call stack.
    Frame(Frame),
    /// No frame was created; this result stands in for the whole
    /// sub-execution.
    Outcome(InterpreterResult),
}

/// Mathematical model of a [`FrameOrResult`].
pub enum FrameOrResultModel {
    Frame(FrameModel),
    Outcome(ResultModel),
}

impl View for FrameOrResult {
    type V = FrameOrResultModel;

    open spec fn view(&self) -> FrameOrResultModel {
        match self {
            FrameOrResult::Frame(f) => FrameOrResultModel::Frame(f@),
            FrameOrResult::Outcome(r) => FrameOrResultModel::Outcome(r@),
        }
    }
}

} // verus!
