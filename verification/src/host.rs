//! The host collaborators this layer calls but does not implement: the
//! frame-construction routine and the pre-existing frame-return logic.
//!
//! Like the base instruction handlers, these are deterministic
//! transformers of the modelled state, stated by effect functions that
//! the lifecycle hooks' contracts compose.

use vstd::prelude::*;

use crate::call_outcome::{InterpreterResult, ResultModel};
use crate::machine::{ContextModel, EvmContext, Frame, FrameModel, FrameOrResult, FrameOrResultModel};
use crate::types::{CallInputs, CallInputsModel, CreateInputs, CreateInputsModel, MemRange};

verus! {

/// The host side of the frame lifecycle: building frames for nested
/// executions and merging a completed frame's result into its parent.
/// Depth, balance and gas checks live behind these calls, out of this
/// layer's scope.
pub trait Host: Sized + View {
    /// Effect of [`Host::make_call_frame`].
    spec fn make_call_frame_effect(h: Self::V, ctx: ContextModel, inputs: CallInputsModel, range: MemRange) -> (Self::V, ContextModel, FrameOrResultModel);

    /// Builds a call frame for the given inputs, with `range` as the
    /// caller-memory destination of the callee's output; or fails with
    /// an immediate result.
    fn make_call_frame(&mut self, ctx: &mut EvmContext, inputs: &CallInputs, range: MemRange) -> (r: FrameOrResult)
        ensures
            (final(self)@, final(ctx)@, r@) == Self::make_call_frame_effect(
                old(self)@,
                old(ctx)@,
                inputs@,
                range,
            ),
    ;

    /// Effect of [`Host::make_create_frame`].
    spec fn make_create_frame_effect(h: Self::V, ctx: ContextModel, inputs: CreateInputsModel) -> (Self::V, ContextModel, FrameOrResultModel);

    /// Builds a create frame for the given inputs, or fails with an
    /// immediate result.
    fn make_create_frame(&mut self, ctx: &mut EvmContext, inputs: &CreateInputs) -> (r: FrameOrResult)
        ensures
            (final(self)@, final(ctx)@, r@) == Self::make_create_frame_effect(
                old(self)@,
                old(ctx)@,
                inputs@,
            ),
    ;

    /// Effect of [`Host::frame_return`]: the new host and context
    /// states, the parent frame after the merge, and the result handed
    /// up, if any.
    spec fn frame_return_effect(h: Self::V, ctx: ContextModel, child: FrameModel, parent: FrameModel, result: ResultModel) -> (Self::V, ContextModel, FrameModel, Option<ResultModel>);

    /// Merges a completed child frame's (possibly observer-modified)
    /// result into its parent.
    fn frame_return(&mut self, ctx: &mut EvmContext, child: &Frame, parent: &mut Frame, result: InterpreterResult) -> (r: Option<InterpreterResult>)
        ensures
            ({
                let e = Self::frame_return_effect(old(self)@, old(ctx)@, child@, old(parent)@, result@);
                &&& (final(self)@, final(ctx)@, final(parent)@) == (e.0, e.1, e.2)
                &&& match r {
                    Some(x) => e.3 == Some(x@),
                    None => e.3 is None,
                }
            }),
    ;
}

/// The model of the result a [`ScriptedHost`] fails with when its
/// script is exhausted.
pub open spec fn failure_result_model() -> ResultModel {
    ResultModel {
        result: crate::types::InstructionResult::FatalExternalError,
        output: Seq::empty(),
        gas: crate::types::Gas { limit: 0, remaining: 0, refunded: 0 },
    }
}

/// The result a [`ScriptedHost`] fails with when its script is
/// exhausted.
pub fn failure_result() -> (r: InterpreterResult)
    ensures
        r@ == failure_result_model(),
{
    InterpreterResult {
        result: crate::types::InstructionResult::FatalExternalError,
        output: Vec::new(),
        gas: crate::types::Gas { limit: 0, remaining: 0, refunded: 0 },
    }
}

/// A host with a preset script: frame construction hands out the
/// scripted answers from the back of `frame_responses` (failing once
/// they run out), and frame return hands out `merge_results` the same
/// way. It counts its invocations and records what it was last given.
pub struct ScriptedHost {
    /// Answers for frame construction, consumed from the back.
    pub frame_responses: Vec<FrameOrResult>,
    /// Answers for frame return, consumed from the back.
    pub merge_results: Vec<InterpreterResult>,
    /// How many call frames were requested.
    pub call_frames: u64,
    /// How many create frames were requested.
    pub create_frames: u64,
    /// How many frame returns were merged.
    pub frame_returns: u64,
    /// The return range the last call-frame request carried.
    pub last_range: Option<MemRange>,
    /// The result the last frame return was asked to merge.
    pub last_merged: Option<InterpreterResult>,
}

/// Mathematical model of a [`ScriptedHost`].
pub struct ScriptedHostModel {
    pub frame_responses: Seq<FrameOrResultModel>,
    pub merge_results: Seq<ResultModel>,
    pub call_frames: u64,
    pub create_frames: u64,
    pub frame_returns: u64,
    pub last_range: Option<MemRange>,
    pub last_merged: Option<ResultModel>,
}

impl View for ScriptedHost {
    type V = ScriptedHostModel;

    open spec fn view(&self) -> ScriptedHostModel {
        ScriptedHostModel {
            frame_responses: self.frame_responses@.map_values(|r: FrameOrResult| r@),
            merge_results: self.merge_results@.map_values(|r: InterpreterResult| r@),
            call_frames: self.call_frames,
            create_frames: self.create_frames,
            frame_returns: self.frame_returns,
            last_range: self.last_range,
            last_merged: match self.last_merged {
                Some(r) => Some(r@),
                None => None,
            },
        }
    }
}

impl ScriptedHost {
    /// A host whose every frame construction fails and whose frame
    /// returns merge silently.
    pub fn new() -> (r: ScriptedHost)
        ensures
            r@.frame_responses == Seq::<FrameOrResultModel>::empty(),
            r@.merge_results == Seq::<ResultModel>::empty(),
            r@.call_frames == 0,
            r@.create_frames == 0,
            r@.frame_returns == 0,
            r@.last_range is None,
            r@.last_merged is None,
    {
        let r = ScriptedHost {
            frame_responses: Vec::new(),
            merge_results: Vec::new(),
            call_frames: 0,
            create_frames: 0,
            frame_returns: 0,
            last_range: None,
            last_merged: None,
        };
        proof {
            assert(r@.frame_responses =~= Seq::<FrameOrResultModel>::empty());
            assert(r@.merge_results =~= Seq::<ResultModel>::empty());
        }
        r
    }
}

impl Host for ScriptedHost {
    open spec fn make_call_frame_effect(h: ScriptedHostModel, ctx: ContextModel, inputs: CallInputsModel, range: MemRange) -> (ScriptedHostModel, ContextModel, FrameOrResultModel) {
        let bumped = if h.call_frames < u64::MAX {
            (h.call_frames + 1) as u64
        } else {
            h.call_frames
        };
        if h.frame_responses.len() > 0 {
            (
                ScriptedHostModel {
                    frame_responses: h.frame_responses.drop_last(),
                    call_frames: bumped,
                    last_range: Some(range),
                    ..h
                },
                ctx,
                h.frame_responses.last(),
            )
        } else {
            (
                ScriptedHostModel { call_frames: bumped, last_range: Some(range), ..h },
                ctx,
                FrameOrResultModel::Outcome(failure_result_model()),
            )
        }
    }

    fn make_call_frame(&mut self, ctx: &mut EvmContext, inputs: &CallInputs, range: MemRange) -> (r: FrameOrResult) {
        if self.call_frames < u64::MAX {
            self.call_frames = self.call_frames + 1;
        }
        self.last_range = Some(range);
        match self.frame_responses.pop() {
            Some(response) => {
                proof {
                    assert(self.frame_responses@.map_values(|r: FrameOrResult| r@)
                        =~= old(self).frame_responses@.map_values(|r: FrameOrResult| r@).drop_last());
                }
                response
            },
            None => FrameOrResult::Outcome(failure_result()),
        }
    }

    open spec fn make_create_frame_effect(h: ScriptedHostModel, ctx: ContextModel, inputs: CreateInputsModel) -> (ScriptedHostModel, ContextModel, FrameOrResultModel) {
        let bumped = if h.create_frames < u64::MAX {
            (h.create_frames + 1) as u64
        } else {
            h.create_frames
        };
        if h.frame_responses.len() > 0 {
            (
                ScriptedHostModel {
                    frame_responses: h.frame_responses.drop_last(),
                    create_frames: bumped,
                    ..h
                },
                ctx,
                h.frame_responses.last(),
            )
        } else {
            (
                ScriptedHostModel { create_frames: bumped, ..h },
                ctx,
                FrameOrResultModel::Outcome(failure_result_model()),
            )
        }
    }

    fn make_create_frame(&mut self, ctx: &mut EvmContext, inputs: &CreateInputs) -> (r: FrameOrResult) {
        if self.create_frames < u64::MAX {
            self.create_frames = self.create_frames + 1;
        }
        match self.frame_responses.pop() {
            Some(response) => {
                proof {
                    assert(self.frame_responses@.map_values(|r: FrameOrResult| r@)
                        =~= old(self).frame_responses@.map_values(|r: FrameOrResult| r@).drop_last());
                }
                response
            },
            None => FrameOrResult::Outcome(failure_result()),
        }
    }

    open spec fn frame_return_effect(h: ScriptedHostModel, ctx: ContextModel, child: FrameModel, parent: FrameModel, result: ResultModel) -> (ScriptedHostModel, ContextModel, FrameModel, Option<ResultModel>) {
        let bumped = if h.frame_returns < u64::MAX {
            (h.frame_returns + 1) as u64
        } else {
            h.frame_returns
        };
        if h.merge_results.len() > 0 {
            (
                ScriptedHostModel {
                    merge_results: h.merge_results.drop_last(),
                    frame_returns: bumped,
                    last_merged: Some(result),
                    ..h
                },
                ctx,
                parent,
                Some(h.merge_results.last()),
            )
        } else {
            (
                ScriptedHostModel { frame_returns: bumped, last_merged: Some(result), ..h },
                ctx,
                parent,
                None,
            )
        }
    }

    fn frame_return(&mut self, ctx: &mut EvmContext, child: &Frame, parent: &mut Frame, result: InterpreterResult) -> (r: Option<InterpreterResult>) {
        if self.frame_returns < u64::MAX {
            self.frame_returns = self.frame_returns + 1;
        }
        self.last_merged = Some(result);
        match self.merge_results.pop() {
            Some(merged) => {
                proof {
                    assert(self.merge_results@.map_values(|r: InterpreterResult| r@)
                        =~= old(self).merge_results@.map_values(|r: InterpreterResult| r@).drop_last());
                }
                Some(merged)
            },
            None => None,
        }
    }
}

} // verus!
