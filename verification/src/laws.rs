//! The guarantees of the wrapping and lifecycle protocols, stated and
//! proved over the protocol definitions for every observer, handler and
//! host.

use vstd::prelude::*;

use crate::call_outcome::ResultModel;
use crate::handler_register::{
    log_protocol, observed_state, execution_state, selfdestruct_protocol, step_protocol,
    wrap_slot, wrapped_effect, HookEvent, StepOut, WrappedInstruction,
};
use crate::host::Host;
use crate::inspector::{Inspector, NoOpInspector};
use crate::instruction::Instruction;
use crate::lifecycle::{first_frame_protocol, frame_return_protocol, sub_call_protocol, sub_create_protocol};
use crate::machine::{created_address_of, with_pending_call, with_pending_create, ContextModel, FrameData, FrameModel, FrameOrResultModel, InterpModel};
use crate::types::{call_inputs_of, create_inputs_of, CallInputsModel, CreateInputsModel, InstructionResult, JournalEntry, MemRange, TransactTo, TxModel};

verus! {

/// The handler a wrapped slot decorates.
pub open spec fn wrapped_inner<T>(w: WrappedInstruction<T>) -> T {
    match w {
        WrappedInstruction::Plain(op) => op,
        WrappedInstruction::Log(op) => op,
        WrappedInstruction::Selfdestruct(op) => op,
    }
}

/// Wrapping is slot-preserving: whatever extra layer an index
/// receives, the wrapped slot decorates exactly the handler that stood
/// at that index.
pub proof fn lemma_wrap_slot_keeps_handler<T>(op: T, index: int)
    ensures
        wrapped_inner(wrap_slot(op, index)) == op,
{
}

/// Transparency of the step protocol: with the no-op observer, a
/// dispatch that arrives still continuing leaves exactly the machine
/// state the undecorated handler leaves.
pub proof fn lemma_step_transparent<H: Instruction>(op: H::V, m: InterpModel, c: ContextModel)
    requires
        m.instruction_result == InstructionResult::Continue,
    ensures
        ({
            let direct = H::effect(op, m, c);
            let out = step_protocol::<NoOpInspector, H>(NoOpInspector, op, m, c);
            out.interp == direct.0 && out.ctx == direct.1
        }),
{
    assert(execution_state(m, observed_state(m)) == m);
}

/// Transparency of every wrapped slot: the log and selfdestruct
/// post-hooks of the no-op observer change nothing either, so any slot
/// of the wrapped table is byte-for-byte the undecorated handler when
/// no observer logic is attached.
pub proof fn lemma_wrapped_transparent<H: Instruction>(
    w: WrappedInstruction<H::V>,
    m: InterpModel,
    c: ContextModel,
)
    requires
        m.instruction_result == InstructionResult::Continue,
    ensures
        ({
            let direct = H::effect(wrapped_inner(w), m, c);
            let out = wrapped_effect::<NoOpInspector, H>(w, NoOpInspector, m, c);
            out.interp == direct.0 && out.ctx == direct.1
        }),
{
    lemma_step_transparent::<H>(wrapped_inner(w), m, c);
}

/// Pointer round-trip: the pre-instruction hook observes the pointer
/// rewound by exactly one byte, and the real instruction executes at
/// the advanced pointer the dispatch loop set, unchanged.
pub proof fn lemma_pc_round_trip(m: InterpModel)
    requires
        m.pc >= 1,
    ensures
        observed_state(m).pc == m.pc - 1,
        forall|after_hook: InterpModel| (#[trigger] execution_state(m, after_hook)).pc == m.pc,
{
}

/// Abort on pre-empt: if the pre-instruction hook leaves a
/// non-continue status, the dispatch ends with exactly the hook's
/// state — the real instruction body and the post-hook never run.
pub proof fn lemma_abort_on_preempt<I: Inspector, H: Instruction>(
    i: I::V,
    op: H::V,
    m: InterpModel,
    c: ContextModel,
)
    requires
        ({
            let stepped = I::step_effect(i, observed_state(m), c);
            stepped.1.instruction_result != InstructionResult::Continue
        }),
    ensures
        ({
            let stepped = I::step_effect(i, observed_state(m), c);
            let out = step_protocol::<I, H>(i, op, m, c);
            &&& (out.inspector, out.interp, out.ctx) == stepped
            &&& out.events == seq![HookEvent::Step { pc: observed_state(m).pc }]
            &&& forall|j: int|
                0 <= j < out.events.len() ==> !((#[trigger] out.events[j]) is Executed) && !(
                out.events[j] is StepEnd)
        }),
{
}

/// Log hook exactness: the step protocol itself never fires the log
/// hook; the log-wrapped slot fires it exactly once — with the
/// appended record — if and only if the dispatch grew the log list by
/// exactly one, and otherwise not at all.
pub proof fn lemma_log_hook_exactness<I: Inspector, H: Instruction>(
    i: I::V,
    op: H::V,
    m: InterpModel,
    c: ContextModel,
)
    ensures
        ({
            let sp = step_protocol::<I, H>(i, op, m, c);
            let lp = log_protocol::<I, H>(i, op, m, c);
            &&& forall|j: int| 0 <= j < sp.events.len() ==> !((#[trigger] sp.events[j]) is Log)
            &&& sp.ctx.logs.len() == c.logs.len() + 1 ==> lp.events == sp.events.push(
                HookEvent::Log { address: sp.ctx.logs.last().address },
            )
            &&& sp.ctx.logs.len() != c.logs.len() + 1 ==> lp == sp
        }),
{
}

/// Selfdestruct hook exactness: the hook fires if and only if the
/// journal's last entry after the dispatch is an account-destroyed
/// record, and then with exactly that entry's address, beneficiary and
/// balance.
pub proof fn lemma_selfdestruct_hook_exactness<I: Inspector, H: Instruction>(
    i: I::V,
    op: H::V,
    m: InterpModel,
    c: ContextModel,
)
    ensures
        ({
            let sp = step_protocol::<I, H>(i, op, m, c);
            let sd = selfdestruct_protocol::<I, H>(i, op, m, c);
            &&& forall|j: int|
                0 <= j < sp.events.len() ==> !((#[trigger] sp.events[j]) is Selfdestruct)
            &&& sp.ctx.journal.len() >= 1 ==> match sp.ctx.journal.last() {
                JournalEntry::AccountDestroyed { address, target, had_balance } => sd
                    == (StepOut {
                    inspector: I::selfdestruct_effect(sp.inspector, address, target, had_balance),
                    interp: sp.interp,
                    ctx: sp.ctx,
                    events: sp.events.push(
                        HookEvent::Selfdestruct { address, target, balance: had_balance },
                    ),
                }),
                _ => sd == sp,
            }
            &&& sp.ctx.journal.len() == 0 ==> sd == sp
        }),
{
}

/// Short-circuit equivalence for calls: if the observer's call hook
/// synthesizes an outcome, no child frame is pushed, the host is never
/// consulted, and the current frame's pending output is exactly the
/// synthesized result and range.
pub proof fn lemma_call_short_circuit<I: Inspector, B: Host>(
    i: I::V,
    h: B::V,
    c: ContextModel,
    inputs: CallInputsModel,
    f: FrameModel,
    return_memory_offset: MemRange,
)
    ensures
        ({
            let called = I::call_effect(i, c, inputs);
            let out = sub_call_protocol::<I, B>(i, h, c, inputs, f, return_memory_offset);
            called.3 matches Some(p) ==> {
                &&& out.pushed is None
                &&& out.frame == with_pending_call(f, p.0, p.1)
                &&& out.host == h
                &&& out.events == seq![HookEvent::CallHook]
            }
        }),
{
}

/// Short-circuit equivalence for creations: the synthesized result and
/// created address land unchanged in the current frame's pending
/// output, and no child frame is pushed.
pub proof fn lemma_create_short_circuit<I: Inspector, B: Host>(
    i: I::V,
    h: B::V,
    c: ContextModel,
    inputs: CreateInputsModel,
    f: FrameModel,
)
    ensures
        ({
            let created = I::create_effect(i, c, inputs);
            let out = sub_create_protocol::<I, B>(i, h, c, inputs, f);
            created.3 matches Some(p) ==> {
                &&& out.pushed is None
                &&& out.frame == with_pending_create(f, p.0, p.1)
                &&& out.host == h
                &&& out.events == seq![HookEvent::CreateHook]
            }
        }),
{
}

/// Frame-return single dispatch: a completed create frame fires
/// create-end exactly once and call-end never; a completed call frame
/// the other way around.
pub proof fn lemma_frame_return_single_dispatch<I: Inspector, B: Host>(
    i: I::V,
    h: B::V,
    c: ContextModel,
    child: FrameModel,
    parent: FrameModel,
    result: ResultModel,
)
    ensures
        ({
            let out = frame_return_protocol::<I, B>(i, h, c, child, parent, result);
            &&& (child.data matches FrameData::Create { .. }) ==> out.events == seq![
                HookEvent::CreateEnd,
            ]
            &&& child.data is Call ==> out.events == seq![HookEvent::CallEnd]
        }),
{
}

/// Transparency of the sub-call hook: with the no-op observer, a
/// nested call behaves exactly as the host's own frame construction —
/// a built frame is pushed as it is, and a construction failure lands
/// in the current frame's pending output with the given return range.
pub proof fn lemma_sub_call_transparent<B: Host>(
    h: B::V,
    c: ContextModel,
    inputs: CallInputsModel,
    f: FrameModel,
    return_memory_offset: MemRange,
)
    ensures
        ({
            let made = B::make_call_frame_effect(h, c, inputs, return_memory_offset);
            let out = sub_call_protocol::<NoOpInspector, B>(
                NoOpInspector,
                h,
                c,
                inputs,
                f,
                return_memory_offset,
            );
            &&& out.host == made.0
            &&& out.ctx == made.1
            &&& match made.2 {
                FrameOrResultModel::Frame(nf) => out.pushed == Some(nf) && out.frame == f,
                FrameOrResultModel::Outcome(res) => out.pushed is None && out.frame
                    == with_pending_call(f, res, return_memory_offset),
            }
        }),
{
}

/// Transparency of the sub-create hook: with the no-op observer, a
/// nested creation behaves exactly as the host's own frame
/// construction, a construction failure keeping the frame's own
/// created address.
pub proof fn lemma_sub_create_transparent<B: Host>(
    h: B::V,
    c: ContextModel,
    inputs: CreateInputsModel,
    f: FrameModel,
)
    ensures
        ({
            let made = B::make_create_frame_effect(h, c, inputs);
            let out = sub_create_protocol::<NoOpInspector, B>(NoOpInspector, h, c, inputs, f);
            &&& out.host == made.0
            &&& out.ctx == made.1
            &&& match made.2 {
                FrameOrResultModel::Frame(nf) => out.pushed == Some(nf) && out.frame == f,
                FrameOrResultModel::Outcome(res) => out.pushed is None && out.frame
                    == with_pending_create(f, res, created_address_of(f.data)),
            }
        }),
{
}

/// Transparency of the frame-return hook: with the no-op observer, a
/// completed frame's result reaches the host's pre-existing return
/// logic unchanged, and the frame's created address stays what it was.
pub proof fn lemma_frame_return_transparent<B: Host>(
    h: B::V,
    c: ContextModel,
    child: FrameModel,
    parent: FrameModel,
    result: ResultModel,
)
    ensures
        ({
            let merged = B::frame_return_effect(h, c, child, parent, result);
            let out = frame_return_protocol::<NoOpInspector, B>(
                NoOpInspector,
                h,
                c,
                child,
                parent,
                result,
            );
            &&& out.host == merged.0
            &&& out.ctx == merged.1
            &&& out.child == child
            &&& out.parent == merged.2
            &&& out.result == merged.3
        }),
{
}

/// Transparency of the first-frame hook: with the no-op observer, the
/// transaction's first frame is exactly what the host's frame
/// construction produces from the transaction's own input descriptor,
/// with an empty top-level return range for a call.
pub proof fn lemma_first_frame_transparent<B: Host>(h: B::V, c: ContextModel, tx: TxModel, gas_limit: u64)
    ensures
        ({
            let out = first_frame_protocol::<NoOpInspector, B>(NoOpInspector, h, c, tx, gas_limit);
            match tx.transact_to {
                TransactTo::Call(target) => {
                    let made = B::make_call_frame_effect(
                        h,
                        c,
                        call_inputs_of(target, tx, gas_limit),
                        MemRange { start: 0, end: 0 },
                    );
                    out.host == made.0 && out.ctx == made.1 && out.result == made.2
                },
                TransactTo::Create => {
                    let made = B::make_create_frame_effect(
                        h,
                        c,
                        create_inputs_of(tx, gas_limit),
                    );
                    out.host == made.0 && out.ctx == made.1 && out.result == made.2
                },
            }
        }),
{
}

} // verus!
