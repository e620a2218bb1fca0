//! The four frame-lifecycle override points: create first frame,
//! sub-call, sub-create, and frame return.
//!
//! Each calls the observer first; a synthesized outcome from the
//! observer stands in for the whole sub-execution, and otherwise the
//! host's own frame construction or return logic runs. For any
//! sub-execution exactly one of {observer short-circuit at
//! construction time, real execution followed by exactly one
//! create-end/call-end at return time} occurs.

use vstd::prelude::*;

use crate::call_outcome::{InterpreterResult, ResultModel};
use crate::handler_register::HookEvent;
use crate::host::Host;
use crate::inspector::Inspector;
use crate::machine::{
    created_address_of, with_pending_call, with_pending_create, ContextModel, EvmContext, Frame,
    FrameData, FrameModel, FrameOrResult, FrameOrResultModel,
};
use crate::types::{call_inputs_of, create_inputs_of, CallInputs, CallInputsModel, CreateInputs, CreateInputsModel, MemRange, TransactTo, TxEnv, TxModel};

verus! {

/// Result of the first-frame hook over the modelled state.
pub struct FirstFrameOut<IV, HV> {
    pub inspector: IV,
    pub host: HV,
    pub ctx: ContextModel,
    pub result: FrameOrResultModel,
    pub events: Seq<HookEvent>,
}

/// Result of a sub-call or sub-create hook over the modelled state:
/// the current frame afterwards, and the child frame pushed, if any.
pub struct SubFrameOut<IV, HV> {
    pub inspector: IV,
    pub host: HV,
    pub ctx: ContextModel,
    pub frame: FrameModel,
    pub pushed: Option<FrameModel>,
    pub events: Seq<HookEvent>,
}

/// Result of the frame-return hook over the modelled state.
pub struct FrameReturnOut<IV, HV> {
    pub inspector: IV,
    pub host: HV,
    pub ctx: ContextModel,
    pub child: FrameModel,
    pub parent: FrameModel,
    pub result: Option<ResultModel>,
    pub events: Seq<HookEvent>,
}

/// The first-frame protocol: branch on the transaction's destination,
/// build the input descriptor, let the observer short-circuit the whole
/// transaction, and otherwise build the real first frame (a top-level
/// call has no caller memory, so its return range is empty).
pub open spec fn first_frame_protocol<I: Inspector, B: Host>(
    i: I::V,
    h: B::V,
    c: ContextModel,
    tx: TxModel,
    gas_limit: u64,
) -> FirstFrameOut<I::V, B::V> {
    match tx.transact_to {
        TransactTo::Call(target) => {
            let called = I::call_effect(i, c, call_inputs_of(target, tx, gas_limit));
            match called.3 {
                Some(p) => FirstFrameOut {
                    inspector: called.0,
                    host: h,
                    ctx: called.1,
                    result: FrameOrResultModel::Outcome(p.0),
                    events: seq![HookEvent::CallHook],
                },
                None => {
                    let made = B::make_call_frame_effect(
                        h,
                        called.1,
                        called.2,
                        MemRange { start: 0, end: 0 },
                    );
                    FirstFrameOut {
                        inspector: called.0,
                        host: made.0,
                        ctx: made.1,
                        result: made.2,
                        events: seq![HookEvent::CallHook],
                    }
                },
            }
        },
        TransactTo::Create => {
            let created = I::create_effect(i, c, create_inputs_of(tx, gas_limit));
            match created.3 {
                Some(p) => FirstFrameOut {
                    inspector: created.0,
                    host: h,
                    ctx: created.1,
                    result: FrameOrResultModel::Outcome(p.0),
                    events: seq![HookEvent::CreateHook],
                },
                None => {
                    let made = B::make_create_frame_effect(h, created.1, created.2);
                    FirstFrameOut {
                        inspector: created.0,
                        host: made.0,
                        ctx: made.1,
                        result: made.2,
                        events: seq![HookEvent::CreateHook],
                    }
                },
            }
        },
    }
}

/// Entry point of a transaction: builds the transaction's own frame, or
/// returns the observer's synthesized result without ever building one.
pub fn create_first_frame<I: Inspector, B: Host>(
    inspector: &mut I,
    host: &mut B,
    ctx: &mut EvmContext,
    tx: &TxEnv,
    gas_limit: u64,
) -> (r: FrameOrResult)
    ensures
        ({
            let out = first_frame_protocol::<I, B>(
                old(inspector)@,
                old(host)@,
                old(ctx)@,
                tx@,
                gas_limit,
            );
            (final(inspector)@, final(host)@, final(ctx)@, r@) == (
                out.inspector,
                out.host,
                out.ctx,
                out.result,
            )
        }),
{
    match tx.transact_to {
        TransactTo::Call(_) => {
            let mut inputs = CallInputs::new(tx, gas_limit);
            match inspector.call(ctx, &mut inputs) {
                Some((result, _range)) => FrameOrResult::Outcome(result),
                None => host.make_call_frame(ctx, &inputs, MemRange::empty()),
            }
        },
        TransactTo::Create => {
            let mut inputs = CreateInputs::new(tx, gas_limit);
            match inspector.create(ctx, &mut inputs) {
                Some((result, _address)) => FrameOrResult::Outcome(result),
                None => host.make_create_frame(ctx, &inputs),
            }
        },
    }
}

/// The sub-call protocol: the observer may synthesize the whole call,
/// in which case its outcome lands in the current frame's
/// pending-output slot and no frame is pushed. Otherwise the host
/// builds the frame; on success the new frame's interpreter is
/// initialized, on failure the observer still sees call-end and the
/// failure lands in the pending-output slot.
pub open spec fn sub_call_protocol<I: Inspector, B: Host>(
    i: I::V,
    h: B::V,
    c: ContextModel,
    inputs: CallInputsModel,
    f: FrameModel,
    return_memory_offset: MemRange,
) -> SubFrameOut<I::V, B::V> {
    let called = I::call_effect(i, c, inputs);
    match called.3 {
        Some(p) => SubFrameOut {
            inspector: called.0,
            host: h,
            ctx: called.1,
            frame: with_pending_call(f, p.0, p.1),
            pushed: None,
            events: seq![HookEvent::CallHook],
        },
        None => {
            let made = B::make_call_frame_effect(h, called.1, called.2, return_memory_offset);
            match made.2 {
                FrameOrResultModel::Frame(nf) => {
                    let init = I::initialize_interp_effect(called.0, nf.interpreter, made.1);
                    SubFrameOut {
                        inspector: init.0,
                        host: made.0,
                        ctx: init.2,
                        frame: f,
                        pushed: Some(FrameModel { data: nf.data, interpreter: init.1 }),
                        events: seq![HookEvent::CallHook, HookEvent::InitializeInterp],
                    }
                },
                FrameOrResultModel::Outcome(res) => {
                    let ended = I::call_end_effect(called.0, made.1, res);
                    SubFrameOut {
                        inspector: ended.0,
                        host: made.0,
                        ctx: ended.1,
                        frame: with_pending_call(f, ended.2, return_memory_offset),
                        pushed: None,
                        events: seq![HookEvent::CallHook, HookEvent::CallEnd],
                    }
                },
            }
        },
    }
}

/// A nested call issued by the currently executing frame: push a new
/// frame, or write a result into the current frame's pending-output
/// slot and push nothing.
pub fn sub_call<I: Inspector, B: Host>(
    inspector: &mut I,
    host: &mut B,
    ctx: &mut EvmContext,
    inputs: CallInputs,
    frame: &mut Frame,
    return_memory_offset: MemRange,
) -> (r: Option<Frame>)
    requires
        return_memory_offset.wf(),
    ensures
        ({
            let out = sub_call_protocol::<I, B>(
                old(inspector)@,
                old(host)@,
                old(ctx)@,
                inputs@,
                old(frame)@,
                return_memory_offset,
            );
            &&& (final(inspector)@, final(host)@, final(ctx)@, final(frame)@) == (
                out.inspector,
                out.host,
                out.ctx,
                out.frame,
            )
            &&& match r {
                Some(f) => out.pushed == Some(f@),
                None => out.pushed is None,
            }
        }),
{
    let mut inputs = inputs;
    match inspector.call(ctx, &mut inputs) {
        Some((result, range)) => {
            frame.insert_call_output(result, range);
            None
        },
        None => match host.make_call_frame(ctx, &inputs, return_memory_offset) {
            FrameOrResult::Frame(new_frame) => {
                let Frame { data, interpreter } = new_frame;
                let mut interpreter = interpreter;
                inspector.initialize_interp(&mut interpreter, ctx);
                Some(Frame { data, interpreter })
            },
            FrameOrResult::Outcome(result) => {
                let result = inspector.call_end(ctx, result);
                frame.insert_call_output(result, return_memory_offset);
                None
            },
        },
    }
}

/// The sub-create protocol, the creation counterpart of
/// [`sub_call_protocol`]: a synthesized (result, address) pair lands in
/// the pending-output slot; a failed construction is reported to the
/// observer through create-end with the current frame's created
/// address.
pub open spec fn sub_create_protocol<I: Inspector, B: Host>(
    i: I::V,
    h: B::V,
    c: ContextModel,
    inputs: CreateInputsModel,
    f: FrameModel,
) -> SubFrameOut<I::V, B::V> {
    let created = I::create_effect(i, c, inputs);
    match created.3 {
        Some(p) => SubFrameOut {
            inspector: created.0,
            host: h,
            ctx: created.1,
            frame: with_pending_create(f, p.0, p.1),
            pushed: None,
            events: seq![HookEvent::CreateHook],
        },
        None => {
            let made = B::make_create_frame_effect(h, created.1, created.2);
            match made.2 {
                FrameOrResultModel::Frame(nf) => {
                    let init = I::initialize_interp_effect(created.0, nf.interpreter, made.1);
                    SubFrameOut {
                        inspector: init.0,
                        host: made.0,
                        ctx: init.2,
                        frame: f,
                        pushed: Some(FrameModel { data: nf.data, interpreter: init.1 }),
                        events: seq![HookEvent::CreateHook, HookEvent::InitializeInterp],
                    }
                },
                FrameOrResultModel::Outcome(res) => {
                    let ended = I::create_end_effect(
                        created.0,
                        made.1,
                        res,
                        created_address_of(f.data),
                    );
                    SubFrameOut {
                        inspector: ended.0,
                        host: made.0,
                        ctx: ended.1,
                        frame: with_pending_create(f, ended.2, ended.3),
                        pushed: None,
                        events: seq![HookEvent::CreateHook, HookEvent::CreateEnd],
                    }
                },
            }
        },
    }
}

/// A nested contract creation issued by the currently executing frame.
pub fn sub_create<I: Inspector, B: Host>(
    inspector: &mut I,
    host: &mut B,
    ctx: &mut EvmContext,
    inputs: CreateInputs,
    frame: &mut Frame,
) -> (r: Option<Frame>)
    ensures
        ({
            let out = sub_create_protocol::<I, B>(
                old(inspector)@,
                old(host)@,
                old(ctx)@,
                inputs@,
                old(frame)@,
            );
            &&& (final(inspector)@, final(host)@, final(ctx)@, final(frame)@) == (
                out.inspector,
                out.host,
                out.ctx,
                out.frame,
            )
            &&& match r {
                Some(f) => out.pushed == Some(f@),
                None => out.pushed is None,
            }
        }),
{
    let mut inputs = inputs;
    match inspector.create(ctx, &mut inputs) {
        Some((result, address)) => {
            frame.insert_create_output(result, address);
            None
        },
        None => match host.make_create_frame(ctx, &inputs) {
            FrameOrResult::Frame(new_frame) => {
                let Frame { data, interpreter } = new_frame;
                let mut interpreter = interpreter;
                inspector.initialize_interp(&mut interpreter, ctx);
                Some(Frame { data, interpreter })
            },
            FrameOrResult::Outcome(result) => {
                let current_address = frame.created_address();
                let (result, address) = inspector.create_end(ctx, result, current_address);
                frame.insert_create_output(result, address);
                None
            },
        },
    }
}

/// The frame-return protocol: exactly one of create-end (for a create
/// frame, with the option to replace the created address) or call-end
/// (for a call frame) fires, then the host's pre-existing return logic
/// merges the possibly rewritten result into the parent.
pub open spec fn frame_return_protocol<I: Inspector, B: Host>(
    i: I::V,
    h: B::V,
    c: ContextModel,
    child: FrameModel,
    parent: FrameModel,
    result: ResultModel,
) -> FrameReturnOut<I::V, B::V> {
    match child.data {
        FrameData::Create { created_address } => {
            let ended = I::create_end_effect(i, c, result, Some(created_address));
            let new_address = match ended.3 {
                Some(a) => a,
                None => created_address,
            };
            let child1 = FrameModel {
                data: FrameData::Create { created_address: new_address },
                interpreter: child.interpreter,
            };
            let merged = B::frame_return_effect(h, ended.1, child1, parent, ended.2);
            FrameReturnOut {
                inspector: ended.0,
                host: merged.0,
                ctx: merged.1,
                child: child1,
                parent: merged.2,
                result: merged.3,
                events: seq![HookEvent::CreateEnd],
            }
        },
        FrameData::Call => {
            let ended = I::call_end_effect(i, c, result);
            let merged = B::frame_return_effect(h, ended.1, child, parent, ended.2);
            FrameReturnOut {
                inspector: ended.0,
                host: merged.0,
                ctx: merged.1,
                child,
                parent: merged.2,
                result: merged.3,
                events: seq![HookEvent::CallEnd],
            }
        },
    }
}

/// A completed frame's result merges into its parent: the observer sees
/// exactly one of create-end or call-end, may rewrite the result (and,
/// for a creation, the created address), and the host's return logic
/// runs on what remains.
pub fn frame_return<I: Inspector, B: Host>(
    inspector: &mut I,
    host: &mut B,
    ctx: &mut EvmContext,
    child: &mut Frame,
    parent: &mut Frame,
    result: InterpreterResult,
) -> (r: Option<InterpreterResult>)
    ensures
        ({
            let out = frame_return_protocol::<I, B>(
                old(inspector)@,
                old(host)@,
                old(ctx)@,
                old(child)@,
                old(parent)@,
                result@,
            );
            &&& (final(inspector)@, final(host)@, final(ctx)@, final(child)@, final(parent)@) == (
                out.inspector,
                out.host,
                out.ctx,
                out.child,
                out.parent,
            )
            &&& match r {
                Some(x) => out.result == Some(x@),
                None => out.result is None,
            }
        }),
{
    match child.data {
        FrameData::Create { created_address } => {
            let (result, address) = inspector.create_end(ctx, result, Some(created_address));
            if let Some(a) = address {
                child.data = FrameData::Create { created_address: a };
            }
            host.frame_return(ctx, child, parent, result)
        },
        FrameData::Call => {
            let result = inspector.call_end(ctx, result);
            host.frame_return(ctx, child, parent, result)
        },
    }
}

} // verus!
