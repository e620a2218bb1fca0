//! The result bundle produced when a call/create frame completes.

use vstd::prelude::*;

use crate::types::{Gas, InstructionResult, MemRange};

verus! {

/// The interpreter's result of one completed execution: status, output
/// bytes and gas usage.
#[derive(Debug, PartialEq, Eq)]
pub struct InterpreterResult {
    /// The status the execution ended with.
    pub result: InstructionResult,
    /// The output bytes produced.
    pub output: Vec<u8>,
    /// Gas usage of the execution.
    pub gas: Gas,
}

/// Mathematical model of an [`InterpreterResult`].
pub struct ResultModel {
    pub result: InstructionResult,
    pub output: Seq<u8>,
    pub gas: Gas,
}

impl View for InterpreterResult {
    type V = ResultModel;

    open spec fn view(&self) -> ResultModel {
        ResultModel { result: self.result, output: self.output@, gas: self.gas }
    }
}

/// The outcome of a call operation: the interpreter's result together
/// with the range of the caller's memory where the output bytes must be
/// written.
///
/// Produced exactly once per completed call frame; every accessor is a
/// pure projection.
#[derive(Debug, PartialEq, Eq)]
pub struct CallOutcome {
    /// The result of the interpreter's execution.
    pub interpreter_result: InterpreterResult,
    /// Where in the caller's memory the output belongs.
    pub memory_offset: MemRange,
}

/// Mathematical model of a [`CallOutcome`].
pub struct OutcomeModel {
    pub interpreter_result: ResultModel,
    pub memory_offset: MemRange,
}

impl View for CallOutcome {
    type V = OutcomeModel;

    open spec fn view(&self) -> OutcomeModel {
        OutcomeModel {
            interpreter_result: self.interpreter_result@,
            memory_offset: self.memory_offset,
        }
    }
}

impl CallOutcome {
    /// Constructs a new `CallOutcome` from an interpreter result and the
    /// destination range in the caller's memory. The range must be
    /// well-formed; an empty range is valid.
    pub fn new(interpreter_result: InterpreterResult, memory_offset: MemRange) -> (r: CallOutcome)
        requires
            memory_offset.wf(),
        ensures
            r == (CallOutcome { interpreter_result, memory_offset }),
    {
        CallOutcome { interpreter_result, memory_offset }
    }

    /// The status the execution ended with.
    pub fn instruction_result(&self) -> (r: &InstructionResult)
        ensures
            *r == self.interpreter_result.result,
    {
        &self.interpreter_result.result
    }

    /// The gas usage of the execution.
    pub fn gas(&self) -> (r: Gas)
        ensures
            r == self.interpreter_result.gas,
    {
        self.interpreter_result.gas
    }

    /// The output bytes of the execution. Independent of the memory
    /// range: a zero-length range may come with non-empty output.
    pub fn output(&self) -> (r: &Vec<u8>)
        ensures
            r@ == self.interpreter_result.output@,
    {
        &self.interpreter_result.output
    }

    /// The start of the destination range in the caller's memory.
    pub fn memory_start(&self) -> (r: usize)
        ensures
            r == self.memory_offset.start,
    {
        self.memory_offset.start
    }

    /// The length of the destination range: always `end - start` of the
    /// range the outcome was constructed with.
    pub fn memory_length(&self) -> (r: usize)
        ensures
            r == self.memory_offset.len_spec(),
            self.memory_offset.wf() ==> r == self.memory_offset.end - self.memory_offset.start,
    {
        if self.memory_offset.start <= self.memory_offset.end {
            self.memory_offset.end - self.memory_offset.start
        } else {
            0
        }
    }
}

} // verus!
