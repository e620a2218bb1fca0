//! Wrapping of the instruction table with the observation protocol.
//!
//! Every one of the 256 slots is routed through the per-instruction
//! step protocol; the LOG slots and the SELFDESTRUCT slot receive one
//! more layer that inspects the journal after the instruction — and its
//! step hooks — have fully executed.

use vstd::prelude::*;

use crate::inspector::Inspector;
use crate::instruction::Instruction;
use crate::machine::{ContextModel, EvmContext, InterpModel, Interpreter};
use crate::types::{copy_bytes, Address, Balance, InstructionResult, JournalEntry, LogRecord};

verus! {

/// First LOG opcode (zero topics).
pub const OPCODE_LOG0: u8 = 0xa0;

/// Last LOG opcode (four topics).
pub const OPCODE_LOG4: u8 = 0xa4;

/// The SELFDESTRUCT opcode.
pub const OPCODE_SELFDESTRUCT: u8 = 0xff;

/// Number of slots in an instruction table.
pub const TABLE_SIZE: usize = 256;

/// Access to the attached observer from a host-side external state.
/// The protocol functions take the observer by mutable reference
/// instead of fetching it through this seam; the blanket impl lets an
/// observer stand as its own external state.
pub trait GetInspector<I: Inspector> {
    /// The attached observer.
    fn get_inspector(&mut self) -> &mut I;
}

impl<I: Inspector> GetInspector<I> for I {
    fn get_inspector(&mut self) -> &mut I {
        self
    }
}

/// One observer hook invocation, or the execution of the real
/// instruction body, as recorded by the protocol definitions. The
/// traces built from these state exactly which hooks a dispatch fires,
/// and in which order.
pub enum HookEvent {
    /// The pre-instruction hook fired, seeing this instruction pointer.
    Step { pc: usize },
    /// The real (undecorated) instruction body executed.
    Executed,
    /// The post-instruction hook fired.
    StepEnd,
    /// The log hook fired with a record emitted by this address.
    Log { address: Address },
    /// The selfdestruct hook fired with the journaled fields.
    Selfdestruct { address: Address, target: Address, balance: Balance },
    /// The call hook fired.
    CallHook,
    /// The call-end hook fired.
    CallEnd,
    /// The create hook fired.
    CreateHook,
    /// The create-end hook fired.
    CreateEnd,
    /// The initialize-interpreter hook fired on a fresh frame.
    InitializeInterp,
}

/// Result of one wrapped dispatch over the modelled state: observer,
/// interpreter and context after it, and the trace of what fired.
pub struct StepOut<IV> {
    pub inspector: IV,
    pub interp: InterpModel,
    pub ctx: ContextModel,
    pub events: Seq<HookEvent>,
}

/// The interpreter state the pre-instruction hook observes: dispatch
/// has already advanced the pointer past the opcode byte, so it is
/// rewound by exactly one.
pub open spec fn observed_state(m: InterpModel) -> InterpModel {
    InterpModel {
        pc: (m.pc - 1) as usize,
        instruction_result: m.instruction_result,
        pending_output: m.pending_output,
    }
}

/// The interpreter state the real instruction executes at: whatever the
/// pre-hook left, with the pointer restored to its advanced value.
pub open spec fn execution_state(m: InterpModel, after_hook: InterpModel) -> InterpModel {
    InterpModel {
        pc: m.pc,
        instruction_result: after_hook.instruction_result,
        pending_output: after_hook.pending_output,
    }
}

/// The per-instruction step protocol: rewind the pointer, fire the
/// pre-hook, and unless the pre-hook ended the dispatch, restore the
/// pointer, run the real instruction and fire the post-hook.
pub open spec fn step_protocol<I: Inspector, H: Instruction>(
    i: I::V,
    op: H::V,
    m: InterpModel,
    c: ContextModel,
) -> StepOut<I::V> {
    let stepped = I::step_effect(i, observed_state(m), c);
    if stepped.1.instruction_result != InstructionResult::Continue {
        StepOut {
            inspector: stepped.0,
            interp: stepped.1,
            ctx: stepped.2,
            events: seq![HookEvent::Step { pc: observed_state(m).pc }],
        }
    } else {
        let executed = H::effect(op, execution_state(m, stepped.1), stepped.2);
        let ended = I::step_end_effect(stepped.0, executed.0, executed.1);
        StepOut {
            inspector: ended.0,
            interp: ended.1,
            ctx: ended.2,
            events: seq![
                HookEvent::Step { pc: observed_state(m).pc },
                HookEvent::Executed,
                HookEvent::StepEnd,
            ],
        }
    }
}

/// The step protocol with the log post-hook layered outside it: if the
/// dispatch grew the log list by exactly one, the log hook fires with
/// the appended record; any other outcome is a silent no-op.
pub open spec fn log_protocol<I: Inspector, H: Instruction>(
    i: I::V,
    op: H::V,
    m: InterpModel,
    c: ContextModel,
) -> StepOut<I::V> {
    let sp = step_protocol::<I, H>(i, op, m, c);
    if sp.ctx.logs.len() == c.logs.len() + 1 {
        let rec = sp.ctx.logs.last();
        let logged = I::log_effect(sp.inspector, sp.ctx, rec.address, rec.data);
        StepOut {
            inspector: logged.0,
            interp: sp.interp,
            ctx: logged.1,
            events: sp.events.push(HookEvent::Log { address: rec.address }),
        }
    } else {
        sp
    }
}

/// The step protocol with the selfdestruct post-hook layered outside
/// it: the hook fires if and only if the journal's last entry is an
/// account-destroyed record, with exactly that entry's fields.
pub open spec fn selfdestruct_protocol<I: Inspector, H: Instruction>(
    i: I::V,
    op: H::V,
    m: InterpModel,
    c: ContextModel,
) -> StepOut<I::V> {
    let sp = step_protocol::<I, H>(i, op, m, c);
    if sp.ctx.journal.len() >= 1 {
        match sp.ctx.journal.last() {
            JournalEntry::AccountDestroyed { address, target, had_balance } => StepOut {
                inspector: I::selfdestruct_effect(sp.inspector, address, target, had_balance),
                interp: sp.interp,
                ctx: sp.ctx,
                events: sp.events.push(
                    HookEvent::Selfdestruct { address, target, balance: had_balance },
                ),
            },
            _ => sp,
        }
    } else {
        sp
    }
}

/// One instruction-table slot after wrapping: every slot runs the step
/// protocol; the LOG and SELFDESTRUCT slots carry their extra
/// journal-inspecting layer.
#[derive(Debug, PartialEq, Eq)]
pub enum WrappedInstruction<H> {
    /// The step protocol around the original handler.
    Plain(H),
    /// The step protocol plus the log post-hook.
    Log(H),
    /// The step protocol plus the selfdestruct post-hook.
    Selfdestruct(H),
}

impl<H: View> View for WrappedInstruction<H> {
    type V = WrappedInstruction<H::V>;

    open spec fn view(&self) -> WrappedInstruction<H::V> {
        match self {
            WrappedInstruction::Plain(op) => WrappedInstruction::Plain(op@),
            WrappedInstruction::Log(op) => WrappedInstruction::Log(op@),
            WrappedInstruction::Selfdestruct(op) => WrappedInstruction::Selfdestruct(op@),
        }
    }
}

/// What running a wrapped slot does to the modelled state, and the
/// hooks it fires.
pub open spec fn wrapped_effect<I: Inspector, H: Instruction>(
    w: WrappedInstruction<H::V>,
    i: I::V,
    m: InterpModel,
    c: ContextModel,
) -> StepOut<I::V> {
    match w {
        WrappedInstruction::Plain(op) => step_protocol::<I, H>(i, op, m, c),
        WrappedInstruction::Log(op) => log_protocol::<I, H>(i, op, m, c),
        WrappedInstruction::Selfdestruct(op) => selfdestruct_protocol::<I, H>(i, op, m, c),
    }
}

/// Runs the step protocol around one base handler: rewinds the pointer
/// by one byte so the pre-hook sees the opcode's own address, skips the
/// instruction and the post-hook entirely if the pre-hook ended the
/// dispatch, and otherwise restores the pointer, executes the real
/// handler and fires the post-hook.
fn dispatch_step<I: Inspector, H: Instruction>(
    op: &H,
    inspector: &mut I,
    interp: &mut Interpreter,
    ctx: &mut EvmContext,
)
    requires
        old(interp).pc >= 1,
    ensures
        ({
            let out = step_protocol::<I, H>(old(inspector)@, op@, old(interp)@, old(ctx)@);
            (final(inspector)@, final(interp)@, final(ctx)@) == (out.inspector, out.interp, out.ctx)
        }),
{
    let advanced_pc = interp.pc;
    interp.pc = advanced_pc - 1;
    inspector.step(interp, ctx);
    if interp.instruction_result != InstructionResult::Continue {
        return;
    }
    interp.pc = advanced_pc;
    op.execute(interp, ctx);
    inspector.step_end(interp, ctx);
}

impl<H: Instruction> WrappedInstruction<H> {
    /// Runs this wrapped slot: the step protocol, then the slot's
    /// journal-inspecting post-hook if it has one.
    pub fn run<I: Inspector>(
        &self,
        inspector: &mut I,
        interp: &mut Interpreter,
        ctx: &mut EvmContext,
    )
        requires
            old(interp).pc >= 1,
        ensures
            ({
                let out = wrapped_effect::<I, H>(self@, old(inspector)@, old(interp)@, old(ctx)@);
                (final(inspector)@, final(interp)@, final(ctx)@) == (
                    out.inspector,
                    out.interp,
                    out.ctx,
                )
            }),
    {
        match self {
            WrappedInstruction::Plain(op) => {
                dispatch_step(op, inspector, interp, ctx);
            },
            WrappedInstruction::Log(op) => {
                let pre_logs = ctx.logs.len();
                dispatch_step(op, inspector, interp, ctx);
                let new_len = ctx.logs.len();
                if new_len >= 1 && new_len - 1 == pre_logs {
                    let record = LogRecord {
                        address: ctx.logs[new_len - 1].address,
                        data: copy_bytes(&ctx.logs[new_len - 1].data),
                    };
                    proof {
                        assert(record@ == ctx@.logs.last());
                    }
                    inspector.log(ctx, &record);
                }
            },
            WrappedInstruction::Selfdestruct(op) => {
                dispatch_step(op, inspector, interp, ctx);
                let journal_len = ctx.journal.len();
                if journal_len >= 1 {
                    match ctx.journal[journal_len - 1] {
                        JournalEntry::AccountDestroyed { address, target, had_balance } => {
                            inspector.selfdestruct(address, target, had_balance);
                        },
                        _ => {},
                    }
                }
            },
        }
    }
}

/// Wraps one base handler with the step protocol. The LOG and
/// SELFDESTRUCT post-hooks are layered on by table position in
/// [`inspector_handle_register`].
pub fn inspector_instruction<H: Instruction>(instruction: H) -> (r: WrappedInstruction<H>)
    ensures
        r@ == WrappedInstruction::Plain(instruction@),
{
    WrappedInstruction::Plain(instruction)
}

/// How slot `index` of the table is wrapped: the five LOG slots get the
/// log post-hook, the SELFDESTRUCT slot the selfdestruct post-hook, and
/// every other slot the plain step protocol.
pub open spec fn wrap_slot<T>(op: T, index: int) -> WrappedInstruction<T> {
    if OPCODE_LOG0 as int <= index && index <= OPCODE_LOG4 as int {
        WrappedInstruction::Log(op)
    } else if index == OPCODE_SELFDESTRUCT as int {
        WrappedInstruction::Selfdestruct(op)
    } else {
        WrappedInstruction::Plain(op)
    }
}

/// Wraps every slot of a 256-entry table, position by position: the
/// transform is total and keeps each original handler in its own slot.
pub fn wrap_table<H: Instruction>(table: Vec<H>) -> (r: Vec<WrappedInstruction<H>>)
    requires
        table.len() == TABLE_SIZE,
    ensures
        r.len() == TABLE_SIZE,
        forall|j: int| 0 <= j < TABLE_SIZE ==> #[trigger] r@[j] == wrap_slot(table@[j], j),
{
    let mut rest = table;
    let mut out: Vec<WrappedInstruction<H>> = Vec::new();
    let mut i: usize = 0;
    while i < TABLE_SIZE
        invariant
            i <= TABLE_SIZE,
            out.len() == i,
            rest@ == table@.skip(i as int),
            table.len() == TABLE_SIZE,
            forall|j: int| 0 <= j < i ==> #[trigger] out@[j] == wrap_slot(table@[j], j),
        decreases TABLE_SIZE - i,
    {
        let op = rest.remove(0);
        proof {
            assert(op == table@[i as int]);
            assert(rest@ =~= table@.skip(i as int + 1));
        }
        let wrapped = if i >= OPCODE_LOG0 as usize && i <= OPCODE_LOG4 as usize {
            WrappedInstruction::Log(op)
        } else if i == OPCODE_SELFDESTRUCT as usize {
            WrappedInstruction::Selfdestruct(op)
        } else {
            WrappedInstruction::Plain(op)
        };
        out.push(wrapped);
        i += 1;
    }
    out
}

/// An instruction table as the handler set holds it: the base form, or
/// the form produced by registration.
#[derive(Debug, PartialEq, Eq)]
pub enum InstructionTables<H> {
    /// The base table of undecorated handlers.
    Plain(Vec<H>),
    /// The table after every slot was wrapped.
    Inspected(Vec<WrappedInstruction<H>>),
}

/// The handler set whose instruction table registration rewrites. A
/// taken (absent) table at registration time is a wiring error of the
/// host and is ruled out by contract.
#[derive(Debug, PartialEq, Eq)]
pub struct EvmHandler<H> {
    /// The instruction table, if not already taken.
    pub instruction_table: Option<InstructionTables<H>>,
}

/// Replaces the handler set's base instruction table with the fully
/// wrapped one: same 256 slots, slot `i` in to slot `i` out, each
/// routed through the step protocol, the LOG and SELFDESTRUCT slots
/// through their journal-inspecting post-hooks as well.
pub fn inspector_handle_register<H: Instruction>(handler: &mut EvmHandler<H>)
    requires
        old(handler).instruction_table matches Some(InstructionTables::Plain(t)) && t.len()
            == TABLE_SIZE,
    ensures
        old(handler).instruction_table matches Some(InstructionTables::Plain(t))
            && final(handler).instruction_table matches Some(InstructionTables::Inspected(w))
            && w.len() == TABLE_SIZE
            && (forall|j: int| 0 <= j < TABLE_SIZE ==> #[trigger] w@[j] == wrap_slot(t@[j], j)),
{
    let taken = handler.instruction_table.take();
    match taken {
        Some(InstructionTables::Plain(table)) => {
            let wrapped = wrap_table(table);
            handler.instruction_table = Some(InstructionTables::Inspected(wrapped));
        },
        _ => {
            vstd::pervasive::unreached()
        },
    }
}

} // verus!
