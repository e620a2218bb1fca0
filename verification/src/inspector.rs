//! The observer capability this layer drives.
//!
//! An observer sees the machine before and after every instruction, may
//! pre-empt an instruction by setting a non-continue status, may
//! short-circuit a nested call/create with a synthesized outcome, and
//! may replace a completed frame's result at return time. Every hook is
//! a deterministic transformer of the modelled state, stated by its
//! effect function; the wrapping protocol's contracts compose those
//! effects.

use vstd::prelude::*;

use crate::call_outcome::{InterpreterResult, ResultModel};
use crate::machine::{ContextModel, EvmContext, InterpModel, Interpreter};
use crate::types::{Address, Balance, CallInputs, CallInputsModel, CreateInputs, CreateInputsModel, InstructionResult, LogRecord, MemRange};

verus! {

/// The observer interface: nine hooks, each a deterministic transformer
/// of the modelled machine state. Any component implementing it can be
/// attached to the instrumentation layer.
pub trait Inspector: Sized + View {
    /// Effect of [`Inspector::step`] on observer, interpreter and
    /// context.
    spec fn step_effect(s: Self::V, interp: InterpModel, ctx: ContextModel) -> (Self::V, InterpModel, ContextModel);

    /// Called before each instruction executes, with the instruction
    /// pointer at the opcode being executed. May set a non-continue
    /// status to pre-empt the instruction.
    fn step(&mut self, interp: &mut Interpreter, ctx: &mut EvmContext)
        ensures
            (final(self)@, final(interp)@, final(ctx)@) == Self::step_effect(
                old(self)@,
                old(interp)@,
                old(ctx)@,
            ),
    ;

    /// Effect of [`Inspector::step_end`].
    spec fn step_end_effect(s: Self::V, interp: InterpModel, ctx: ContextModel) -> (Self::V, InterpModel, ContextModel);

    /// Called after each instruction executes.
    fn step_end(&mut self, interp: &mut Interpreter, ctx: &mut EvmContext)
        ensures
            (final(self)@, final(interp)@, final(ctx)@) == Self::step_end_effect(
                old(self)@,
                old(interp)@,
                old(ctx)@,
            ),
    ;

    /// Effect of [`Inspector::initialize_interp`].
    spec fn initialize_interp_effect(s: Self::V, interp: InterpModel, ctx: ContextModel) -> (Self::V, InterpModel, ContextModel);

    /// Called once when a new frame's interpreter is created, before it
    /// begins executing.
    fn initialize_interp(&mut self, interp: &mut Interpreter, ctx: &mut EvmContext)
        ensures
            (final(self)@, final(interp)@, final(ctx)@) == Self::initialize_interp_effect(
                old(self)@,
                old(interp)@,
                old(ctx)@,
            ),
    ;

    /// Effect of [`Inspector::call`]: the new observer and context
    /// states, the possibly rewritten inputs, and the synthesized
    /// outcome if the observer short-circuits.
    spec fn call_effect(s: Self::V, ctx: ContextModel, inputs: CallInputsModel) -> (
        Self::V,
        ContextModel,
        CallInputsModel,
        Option<(ResultModel, MemRange)>,
    );

    /// Called before a call sub-execution is constructed. Returning a
    /// synthesized (result, memory-range) pair short-circuits the
    /// sub-execution; the range must be well-formed.
    fn call(&mut self, ctx: &mut EvmContext, inputs: &mut CallInputs) -> (r: Option<
        (InterpreterResult, MemRange),
    >)
        ensures
            ({
                let e = Self::call_effect(old(self)@, old(ctx)@, old(inputs)@);
                &&& (final(self)@, final(ctx)@, final(inputs)@) == (e.0, e.1, e.2)
                &&& match r {
                    Some(p) => e.3 == Some((p.0@, p.1)) && p.1.wf(),
                    None => e.3 is None,
                }
            }),
    ;

    /// Effect of [`Inspector::call_end`].
    spec fn call_end_effect(s: Self::V, ctx: ContextModel, result: ResultModel) -> (
        Self::V,
        ContextModel,
        ResultModel,
    );

    /// Called when a call frame completes, successfully or not. May
    /// replace the result.
    fn call_end(&mut self, ctx: &mut EvmContext, result: InterpreterResult) -> (r: InterpreterResult)
        ensures
            (final(self)@, final(ctx)@, r@) == Self::call_end_effect(old(self)@, old(ctx)@, result@),
    ;

    /// Effect of [`Inspector::create`].
    spec fn create_effect(s: Self::V, ctx: ContextModel, inputs: CreateInputsModel) -> (
        Self::V,
        ContextModel,
        CreateInputsModel,
        Option<(ResultModel, Option<Address>)>,
    );

    /// Called before a create sub-execution is constructed. Returning a
    /// synthesized (result, address) pair short-circuits the
    /// sub-execution.
    fn create(&mut self, ctx: &mut EvmContext, inputs: &mut CreateInputs) -> (r: Option<
        (InterpreterResult, Option<Address>),
    >)
        ensures
            ({
                let e = Self::create_effect(old(self)@, old(ctx)@, old(inputs)@);
                &&& (final(self)@, final(ctx)@, final(inputs)@) == (e.0, e.1, e.2)
                &&& match r {
                    Some(p) => e.3 == Some((p.0@, p.1)),
                    None => e.3 is None,
                }
            }),
    ;

    /// Effect of [`Inspector::create_end`].
    spec fn create_end_effect(s: Self::V, ctx: ContextModel, result: ResultModel, address: Option<Address>) -> (
        Self::V,
        ContextModel,
        ResultModel,
        Option<Address>,
    );

    /// Called when a create frame completes. May replace the result
    /// and/or the created address.
    fn create_end(&mut self, ctx: &mut EvmContext, result: InterpreterResult, address: Option<Address>) -> (r: (
        InterpreterResult,
        Option<Address>,
    ))
        ensures
            (final(self)@, final(ctx)@, r.0@, r.1) == Self::create_end_effect(
                old(self)@,
                old(ctx)@,
                result@,
                address,
            ),
    ;

    /// Effect of [`Inspector::log`], given the fields of the journaled
    /// record.
    spec fn log_effect(s: Self::V, ctx: ContextModel, address: Address, data: Seq<u8>) -> (
        Self::V,
        ContextModel,
    );

    /// Called after a LOG instruction successfully journaled a record,
    /// with a copy of that record.
    fn log(&mut self, ctx: &mut EvmContext, record: &LogRecord)
        ensures
            (final(self)@, final(ctx)@) == Self::log_effect(
                old(self)@,
                old(ctx)@,
                record.address,
                record.data@,
            ),
    ;

    /// Effect of [`Inspector::selfdestruct`].
    spec fn selfdestruct_effect(s: Self::V, address: Address, target: Address, value: Balance) -> Self::V;

    /// Called after SELFDESTRUCT successfully journaled an account
    /// destruction, with the destroyed address, the beneficiary and the
    /// transferred balance.
    fn selfdestruct(&mut self, address: Address, target: Address, value: Balance)
        ensures
            final(self)@ == Self::selfdestruct_effect(old(self)@, address, target, value),
    ;
}

/// The observer that does nothing: every hook leaves the machine
/// untouched and never short-circuits. Wrapping with it is exactly
/// transparent.
#[derive(Clone, Copy, Debug, PartialEq, Eq, Structural)]
pub struct NoOpInspector;

impl View for NoOpInspector {
    type V = NoOpInspector;

    open spec fn view(&self) -> NoOpInspector {
        NoOpInspector
    }
}

impl Inspector for NoOpInspector {
    open spec fn step_effect(s: NoOpInspector, interp: InterpModel, ctx: ContextModel) -> (NoOpInspector, InterpModel, ContextModel) {
        (s, interp, ctx)
    }

    fn step(&mut self, interp: &mut Interpreter, ctx: &mut EvmContext) {
    }

    open spec fn step_end_effect(s: NoOpInspector, interp: InterpModel, ctx: ContextModel) -> (NoOpInspector, InterpModel, ContextModel) {
        (s, interp, ctx)
    }

    fn step_end(&mut self, interp: &mut Interpreter, ctx: &mut EvmContext) {
    }

    open spec fn initialize_interp_effect(s: NoOpInspector, interp: InterpModel, ctx: ContextModel) -> (NoOpInspector, InterpModel, ContextModel) {
        (s, interp, ctx)
    }

    fn initialize_interp(&mut self, interp: &mut Interpreter, ctx: &mut EvmContext) {
    }

    open spec fn call_effect(s: NoOpInspector, ctx: ContextModel, inputs: CallInputsModel) -> (
        NoOpInspector,
        ContextModel,
        CallInputsModel,
        Option<(ResultModel, MemRange)>,
    ) {
        (s, ctx, inputs, None)
    }

    fn call(&mut self, ctx: &mut EvmContext, inputs: &mut CallInputs) -> Option<
        (InterpreterResult, MemRange),
    > {
        None
    }

    open spec fn call_end_effect(s: NoOpInspector, ctx: ContextModel, result: ResultModel) -> (
        NoOpInspector,
        ContextModel,
        ResultModel,
    ) {
        (s, ctx, result)
    }

    fn call_end(&mut self, ctx: &mut EvmContext, result: InterpreterResult) -> InterpreterResult {
        result
    }

    open spec fn create_effect(s: NoOpInspector, ctx: ContextModel, inputs: CreateInputsModel) -> (
        NoOpInspector,
        ContextModel,
        CreateInputsModel,
        Option<(ResultModel, Option<Address>)>,
    ) {
        (s, ctx, inputs, None)
    }

    fn create(&mut self, ctx: &mut EvmContext, inputs: &mut CreateInputs) -> Option<
        (InterpreterResult, Option<Address>),
    > {
        None
    }

    open spec fn create_end_effect(s: NoOpInspector, ctx: ContextModel, result: ResultModel, address: Option<Address>) -> (
        NoOpInspector,
        ContextModel,
        ResultModel,
        Option<Address>,
    ) {
        (s, ctx, result, address)
    }

    fn create_end(&mut self, ctx: &mut EvmContext, result: InterpreterResult, address: Option<Address>) -> (
        InterpreterResult,
        Option<Address>,
    ) {
        (result, address)
    }

    open spec fn log_effect(s: NoOpInspector, ctx: ContextModel, address: Address, data: Seq<u8>) -> (
        NoOpInspector,
        ContextModel,
    ) {
        (s, ctx)
    }

    fn log(&mut self, ctx: &mut EvmContext, record: &LogRecord) {
    }

    open spec fn selfdestruct_effect(s: NoOpInspector, address: Address, target: Address, value: Balance) -> NoOpInspector {
        s
    }

    fn selfdestruct(&mut self, address: Address, target: Address, value: Balance) {
    }
}

/// A counter bumped once per hook invocation; it saturates instead of
/// wrapping.
pub open spec fn bump_spec(count: u64) -> u64 {
    if count < u64::MAX {
        (count + 1) as u64
    } else {
        count
    }
}

fn bump(count: u64) -> (r: u64)
    ensures
        r == bump_spec(count),
{
    if count < u64::MAX {
        count + 1
    } else {
        count
    }
}

/// An observer with preset responses and per-hook counters: each hook
/// counts its invocations and records what it saw, and the preset
/// short-circuit or replacement responses are each handed out once.
/// With nothing preset it observes without interfering.
pub struct ScriptedInspector {
    /// If set, the pre-instruction hook ends the dispatch with this
    /// status.
    pub halt_on_step: Option<InstructionResult>,
    /// Synthesized outcome the call hook returns once.
    pub call_response: Option<(InterpreterResult, MemRange)>,
    /// Synthesized outcome the create hook returns once.
    pub create_response: Option<(InterpreterResult, Option<Address>)>,
    /// Replacement result the call-end hook returns once.
    pub call_end_response: Option<InterpreterResult>,
    /// Replacement result and address the create-end hook returns once.
    pub create_end_response: Option<(InterpreterResult, Option<Address>)>,
    /// Invocation counts of each hook.
    pub steps: u64,
    pub step_ends: u64,
    pub inits: u64,
    pub calls: u64,
    pub call_ends: u64,
    pub creates: u64,
    pub create_ends: u64,
    pub logs: u64,
    pub selfdestructs: u64,
    /// Instruction pointers the pre-instruction hook observed.
    pub seen_pcs: Vec<usize>,
    /// Instruction pointers the post-instruction hook observed.
    pub seen_end_pcs: Vec<usize>,
    /// The record the log hook last received.
    pub last_log: Option<(Address, Vec<u8>)>,
    /// The fields the selfdestruct hook last received.
    pub last_selfdestruct: Option<(Address, Address, Balance)>,
}

/// Mathematical model of a [`ScriptedInspector`].
pub struct ScriptModel {
    pub halt_on_step: Option<InstructionResult>,
    pub call_response: Option<(ResultModel, MemRange)>,
    pub create_response: Option<(ResultModel, Option<Address>)>,
    pub call_end_response: Option<ResultModel>,
    pub create_end_response: Option<(ResultModel, Option<Address>)>,
    pub steps: u64,
    pub step_ends: u64,
    pub inits: u64,
    pub calls: u64,
    pub call_ends: u64,
    pub creates: u64,
    pub create_ends: u64,
    pub logs: u64,
    pub selfdestructs: u64,
    pub seen_pcs: Seq<usize>,
    pub seen_end_pcs: Seq<usize>,
    pub last_log: Option<(Address, Seq<u8>)>,
    pub last_selfdestruct: Option<(Address, Address, Balance)>,
}

impl View for ScriptedInspector {
    type V = ScriptModel;

    open spec fn view(&self) -> ScriptModel {
        ScriptModel {
            halt_on_step: self.halt_on_step,
            call_response: match self.call_response {
                Some(p) => Some((p.0@, p.1)),
                None => None,
            },
            create_response: match self.create_response {
                Some(p) => Some((p.0@, p.1)),
                None => None,
            },
            call_end_response: match self.call_end_response {
                Some(r) => Some(r@),
                None => None,
            },
            create_end_response: match self.create_end_response {
                Some(p) => Some((p.0@, p.1)),
                None => None,
            },
            steps: self.steps,
            step_ends: self.step_ends,
            inits: self.inits,
            calls: self.calls,
            call_ends: self.call_ends,
            creates: self.creates,
            create_ends: self.create_ends,
            logs: self.logs,
            selfdestructs: self.selfdestructs,
            seen_pcs: self.seen_pcs@,
            seen_end_pcs: self.seen_end_pcs@,
            last_log: match self.last_log {
                Some(p) => Some((p.0, p.1@)),
                None => None,
            },
            last_selfdestruct: self.last_selfdestruct,
        }
    }
}

/// The model of a freshly constructed [`ScriptedInspector`].
pub open spec fn script_default() -> ScriptModel {
    ScriptModel {
        halt_on_step: None,
        call_response: None,
        create_response: None,
        call_end_response: None,
        create_end_response: None,
        steps: 0,
        step_ends: 0,
        inits: 0,
        calls: 0,
        call_ends: 0,
        creates: 0,
        create_ends: 0,
        logs: 0,
        selfdestructs: 0,
        seen_pcs: Seq::empty(),
        seen_end_pcs: Seq::empty(),
        last_log: None,
        last_selfdestruct: None,
    }
}

impl ScriptedInspector {
    /// An observer that only counts and records.
    pub fn new() -> (r: ScriptedInspector)
        ensures
            r@ == script_default(),
    {
        ScriptedInspector {
            halt_on_step: None,
            call_response: None,
            create_response: None,
            call_end_response: None,
            create_end_response: None,
            steps: 0,
            step_ends: 0,
            inits: 0,
            calls: 0,
            call_ends: 0,
            creates: 0,
            create_ends: 0,
            logs: 0,
            selfdestructs: 0,
            seen_pcs: Vec::new(),
            seen_end_pcs: Vec::new(),
            last_log: None,
            last_selfdestruct: None,
        }
    }
}

impl Inspector for ScriptedInspector {
    open spec fn step_effect(s: ScriptModel, interp: InterpModel, ctx: ContextModel) -> (ScriptModel, InterpModel, ContextModel) {
        let s1 = ScriptModel {
            steps: bump_spec(s.steps),
            seen_pcs: s.seen_pcs.push(interp.pc),
            ..s
        };
        let m1 = match s.halt_on_step {
            Some(status) => InterpModel {
                pc: interp.pc,
                instruction_result: status,
                pending_output: interp.pending_output,
            },
            None => interp,
        };
        (s1, m1, ctx)
    }

    fn step(&mut self, interp: &mut Interpreter, ctx: &mut EvmContext) {
        self.steps = bump(self.steps);
        self.seen_pcs.push(interp.pc);
        match self.halt_on_step {
            Some(status) => {
                interp.instruction_result = status;
            },
            None => {},
        }
    }

    open spec fn step_end_effect(s: ScriptModel, interp: InterpModel, ctx: ContextModel) -> (ScriptModel, InterpModel, ContextModel) {
        (
            ScriptModel {
                step_ends: bump_spec(s.step_ends),
                seen_end_pcs: s.seen_end_pcs.push(interp.pc),
                ..s
            },
            interp,
            ctx,
        )
    }

    fn step_end(&mut self, interp: &mut Interpreter, ctx: &mut EvmContext) {
        self.step_ends = bump(self.step_ends);
        self.seen_end_pcs.push(interp.pc);
    }

    open spec fn initialize_interp_effect(s: ScriptModel, interp: InterpModel, ctx: ContextModel) -> (ScriptModel, InterpModel, ContextModel) {
        (ScriptModel { inits: bump_spec(s.inits), ..s }, interp, ctx)
    }

    fn initialize_interp(&mut self, interp: &mut Interpreter, ctx: &mut EvmContext) {
        self.inits = bump(self.inits);
    }

    open spec fn call_effect(s: ScriptModel, ctx: ContextModel, inputs: CallInputsModel) -> (
        ScriptModel,
        ContextModel,
        CallInputsModel,
        Option<(ResultModel, MemRange)>,
    ) {
        let s1 = ScriptModel { calls: bump_spec(s.calls), call_response: None, ..s };
        let r = match s.call_response {
            Some(p) => if p.1.wf() {
                Some(p)
            } else {
                None
            },
            None => None,
        };
        (s1, ctx, inputs, r)
    }

    fn call(&mut self, ctx: &mut EvmContext, inputs: &mut CallInputs) -> Option<
        (InterpreterResult, MemRange),
    > {
        self.calls = bump(self.calls);
        match self.call_response.take() {
            Some((result, range)) => if range.start <= range.end {
                Some((result, range))
            } else {
                None
            },
            None => None,
        }
    }

    open spec fn call_end_effect(s: ScriptModel, ctx: ContextModel, result: ResultModel) -> (
        ScriptModel,
        ContextModel,
        ResultModel,
    ) {
        let s1 = ScriptModel { call_ends: bump_spec(s.call_ends), call_end_response: None, ..s };
        let r = match s.call_end_response {
            Some(replacement) => replacement,
            None => result,
        };
        (s1, ctx, r)
    }

    fn call_end(&mut self, ctx: &mut EvmContext, result: InterpreterResult) -> InterpreterResult {
        self.call_ends = bump(self.call_ends);
        match self.call_end_response.take() {
            Some(replacement) => replacement,
            None => result,
        }
    }

    open spec fn create_effect(s: ScriptModel, ctx: ContextModel, inputs: CreateInputsModel) -> (
        ScriptModel,
        ContextModel,
        CreateInputsModel,
        Option<(ResultModel, Option<Address>)>,
    ) {
        let s1 = ScriptModel { creates: bump_spec(s.creates), create_response: None, ..s };
        (s1, ctx, inputs, s.create_response)
    }

    fn create(&mut self, ctx: &mut EvmContext, inputs: &mut CreateInputs) -> Option<
        (InterpreterResult, Option<Address>),
    > {
        self.creates = bump(self.creates);
        self.create_response.take()
    }

    open spec fn create_end_effect(s: ScriptModel, ctx: ContextModel, result: ResultModel, address: Option<Address>) -> (
        ScriptModel,
        ContextModel,
        ResultModel,
        Option<Address>,
    ) {
        let s1 = ScriptModel {
            create_ends: bump_spec(s.create_ends),
            create_end_response: None,
            ..s
        };
        match s.create_end_response {
            Some(p) => (s1, ctx, p.0, p.1),
            None => (s1, ctx, result, address),
        }
    }

    fn create_end(&mut self, ctx: &mut EvmContext, result: InterpreterResult, address: Option<Address>) -> (
        InterpreterResult,
        Option<Address>,
    ) {
        self.create_ends = bump(self.create_ends);
        match self.create_end_response.take() {
            Some((replacement, new_address)) => (replacement, new_address),
            None => (result, address),
        }
    }

    open spec fn log_effect(s: ScriptModel, ctx: ContextModel, address: Address, data: Seq<u8>) -> (
        ScriptModel,
        ContextModel,
    ) {
        (ScriptModel { logs: bump_spec(s.logs), last_log: Some((address, data)), ..s }, ctx)
    }

    fn log(&mut self, ctx: &mut EvmContext, record: &LogRecord) {
        self.logs = bump(self.logs);
        self.last_log = Some((record.address, crate::types::copy_bytes(&record.data)));
    }

    open spec fn selfdestruct_effect(s: ScriptModel, address: Address, target: Address, value: Balance) -> ScriptModel {
        ScriptModel {
            selfdestructs: bump_spec(s.selfdestructs),
            last_selfdestruct: Some((address, target, value)),
            ..s
        }
    }

    fn selfdestruct(&mut self, address: Address, target: Address, value: Balance) {
        self.selfdestructs = bump(self.selfdestructs);
        self.last_selfdestruct = Some((address, target, value));
    }
}

} // verus!
