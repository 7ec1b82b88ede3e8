//! The dispatcher: one externally triggered input event is enqueued, then
//! the queue is drained to quiescence — each message routed to the handler
//! for its kind, handlers emitting further messages into the same queue —
//! before control returns to the caller.  A hard iteration cap bounds
//! pathological self-feeding message chains; exceeding it is a visible
//! outcome, never a silent failure.  A message with no handler is dropped
//! without effect: that is defined, not an error.

use vstd::prelude::*;
use crate::document::DocumentModel;
use crate::geometry::{COORD_LIMIT, ViewportPosition, delta_spec, translate_spec};
use crate::messages::{
    DocumentMessage, FrontendMessage, GraphOperationMessage, InputState, KeyboardState, Message,
    MouseState, NodeGraphMessage, PortfolioMessage, SelectToolMessage, ToolMessage,
};
use crate::queue::MessageQueue;
use crate::select_tool::SelectTool;

verus! {

/// The hard bound on messages processed in one drain cycle.
pub const DISPATCH_CAP: u64 = 65536;

/// How one drain cycle ended.
#[derive(Clone, Copy, Debug, PartialEq, Eq, Structural)]
pub enum DrainOutcome {
    /// The queue is empty: all causally produced messages were processed.
    Quiescent,
    /// The iteration cap was hit: a programmer-visible fault.
    CapExceeded,
}

/// One editor session: the queue, the active tool, the document model, the
/// current input snapshot, and the messages emitted to the presentation
/// layer.
pub struct Editor {
    pub queue: MessageQueue,
    pub tool: SelectTool,
    pub document: DocumentModel,
    pub input: InputState,
    pub frontend: Vec<FrontendMessage>,
}

impl Editor {
    /// The session-wide well-formedness every dispatch preserves.
    pub open spec fn wf(self) -> bool {
        &&& self.document.wf()
        &&& self.input.wf()
        &&& self.tool.tool_data.wf()
        &&& crate::select_tool::state_inv(self.tool.fsm_state, self.tool.tool_data)
    }

    /// A fresh session around a document.
    pub fn new(document: DocumentModel) -> (r: Editor)
        requires
            document.wf(),
        ensures
            r.wf(),
            r.queue@.len() == 0,
            r.document == document,
            r.tool.fsm_state == crate::select_tool::SelectToolFsmState::Ready,
    {
        Editor {
            queue: MessageQueue::new(),
            tool: SelectTool::default(),
            document,
            input: InputState {
                mouse: MouseState { position: ViewportPosition { x: 0, y: 0 } },
                keyboard: KeyboardState::released(),
            },
            frontend: Vec::new(),
        }
    }

    /// Moves the pointer.
    pub fn set_pointer(&mut self, x: i64, y: i64)
        requires
            old(self).wf(),
            -COORD_LIMIT <= x <= COORD_LIMIT,
            -COORD_LIMIT <= y <= COORD_LIMIT,
        ensures
            final(self).wf(),
            final(self).input.mouse.position == (ViewportPosition { x, y }),
            final(self).input.keyboard == old(self).input.keyboard,
            final(self).document == old(self).document,
            final(self).queue@ == old(self).queue@,
    {
        self.input.mouse.position = ViewportPosition { x, y };
    }

    /// Replaces the keyboard snapshot.
    pub fn set_keyboard(&mut self, keyboard: KeyboardState)
        requires
            old(self).wf(),
        ensures
            final(self).wf(),
            final(self).input.keyboard == keyboard,
            final(self).input.mouse == old(self).input.mouse,
            final(self).document == old(self).document,
            final(self).queue@ == old(self).queue@,
    {
        self.input.keyboard = keyboard;
    }

    /// Routes one message to the handler registered for its kind.  Kinds
    /// with no handler here — dialog requests, portfolio lifecycle,
    /// overlay render passes — are dropped without effect.  A transform or
    /// duplication whose payload is out of the bounded range is skipped,
    /// like any stale reference: never fatal.
    pub fn handle_message(&mut self, m: Message)
        requires
            old(self).wf(),
        ensures
            final(self).wf(),
            final(self).input == old(self).input,
            route_post(*old(self), *final(self), m),
    {
        match m {
            Message::Portfolio(PortfolioMessage::Document(dm)) => {
                match dm {
                    DocumentMessage::StartTransaction => self.document.start_transaction(),
                    DocumentMessage::CommitTransaction => self.document.commit_transaction(),
                    DocumentMessage::Undo => self.document.undo(),
                    DocumentMessage::DeselectAllLayers => self.document.deselect_all(),
                    DocumentMessage::AlignSelectedLayers { .. } => {},
                    DocumentMessage::FlipSelectedLayers { .. } => {},
                    DocumentMessage::Overlays(_) => {},
                }
            },
            Message::Portfolio(_) => {},
            Message::GraphOperation(g) => {
                match g {
                    GraphOperationMessage::TransformChange { layer, translation, .. } => {
                        if -4 * COORD_LIMIT <= translation.x && translation.x <= 4 * COORD_LIMIT
                            && -4 * COORD_LIMIT <= translation.y && translation.y <= 4
                            * COORD_LIMIT {
                            self.document.translate_layer(layer, translation);
                        }
                    },
                    GraphOperationMessage::DeleteLayer { id } => {
                        self.document.delete_layer(id);
                    },
                    GraphOperationMessage::DuplicateLayer { source, new_id, offset } => {
                        if -4 * COORD_LIMIT <= offset.x && offset.x <= 4 * COORD_LIMIT && -4
                            * COORD_LIMIT <= offset.y && offset.y <= 4 * COORD_LIMIT {
                            self.document.duplicate_layer(source, new_id, offset);
                        }
                    },
                }
            },
            Message::NodeGraph(NodeGraphMessage::SelectedNodesSet { nodes }) => {
                self.document.set_selection(&nodes);
            },
            Message::Frontend(f) => {
                self.frontend.push(f);
            },
            Message::Dialog(_) => {},
            Message::Tool(tm) => {
                let guard_ok = match &tm {
                    ToolMessage::Select(SelectToolMessage::SetPivot { position }) => !matches!(
                        position,
                        crate::messages::PivotPosition::Unset,
                    ),
                    _ => true,
                };
                if guard_ok {
                    self.tool.process_message(tm, &self.document, &self.input, &mut self.queue);
                }
            },
        }
    }

    /// Drains the queue to quiescence: repeatedly pops the front message
    /// and routes it, handlers appending what they produce, until the
    /// queue is empty or the iteration cap is hit.  The whole cycle is
    /// owed as a witnessed trace of routed steps.
    pub fn drain(&mut self) -> (outcome: DrainOutcome)
        requires
            old(self).wf(),
        ensures
            final(self).wf(),
            outcome == DrainOutcome::Quiescent <==> final(self).queue@.len() == 0,
            old(self).queue@.len() == 0 ==> outcome == DrainOutcome::Quiescent && *final(self)
                == *old(self),
            exists|trace: Seq<Editor>|
                #[trigger] drain_trace_ok(trace, *old(self), *final(self), outcome),
    {
        let ghost mut trace: Seq<Editor> = seq![*old(self)];
        let mut steps: u64 = 0;
        loop
            invariant
                self.wf(),
                steps <= DISPATCH_CAP,
                trace.len() == steps + 1,
                trace[0] == *old(self),
                trace.last() == *self,
                forall|k: int|
                    0 <= k < trace.len() - 1 ==> drain_step(#[trigger] trace[k], trace[k + 1]),
                steps > 0 ==> old(self).queue@.len() > 0,
            decreases DISPATCH_CAP - steps,
        {
            if self.queue.len() == 0 {
                proof {
                    assert(drain_trace_ok(trace, *old(self), *self, DrainOutcome::Quiescent));
                }
                return DrainOutcome::Quiescent;
            }
            if steps >= DISPATCH_CAP {
                proof {
                    assert(drain_trace_ok(trace, *old(self), *self, DrainOutcome::CapExceeded));
                }
                return DrainOutcome::CapExceeded;
            }
            let ghost before = *self;
            let m = match self.queue.pop_front() {
                Some(m) => m,
                None => {
                    proof {
                        assert(false);
                    }
                    vstd::pervasive::unreached()
                },
            };
            let ghost mid = *self;
            self.handle_message(m);
            proof {
                assert(mid.queue@ == before.queue@.skip(1));
                assert(route_post(mid, *self, before.queue@[0]));
                assert(drain_step(before, *self));
                trace = trace.push(*self);
            }
            steps = steps + 1;
        }
    }

    /// One externally triggered event: enqueue, then drain to quiescence:
    /// a witnessed trace routes the enqueued message and everything it
    /// causally produces before control returns.
    pub fn dispatch(&mut self, m: Message) -> (outcome: DrainOutcome)
        requires
            old(self).wf(),
        ensures
            final(self).wf(),
            outcome == DrainOutcome::Quiescent <==> final(self).queue@.len() == 0,
            exists|start: Editor, trace: Seq<Editor>|
                start.queue@ == old(self).queue@.push(m) && start.tool == old(self).tool
                    && start.document == old(self).document && start.input == old(self).input
                    && start.frontend == old(self).frontend && #[trigger] drain_trace_ok(
                    trace,
                    start,
                    *final(self),
                    outcome,
                ),
    {
        self.queue.add(m);
        let ghost start = *self;
        let outcome = self.drain();
        proof {
            let trace = choose|trace: Seq<Editor>|
                #[trigger] drain_trace_ok(trace, start, *self, outcome);
            assert(drain_trace_ok(trace, start, *self, outcome));
        }
        outcome
    }
}


/// What routing one message does, route by route, over the contracts of
/// the document model and the tool.
pub open spec fn route_post(pre: Editor, post: Editor, m: Message) -> bool {
    match m {
        Message::Portfolio(PortfolioMessage::Document(dm)) => {
            &&& post.queue@ == pre.queue@
            &&& post.frontend@ == pre.frontend@
            &&& post.tool.fsm_state == pre.tool.fsm_state
            &&& match dm {
                DocumentMessage::StartTransaction => post.document.state().saved == Some(
                    (pre.document.layers@, pre.document.selection@),
                ) && post.document.visible() == pre.document.visible(),
                DocumentMessage::CommitTransaction => post.document.saved is None
                    && post.document.visible() == pre.document.visible()
                    && post.document.violation == (pre.document.violation
                    || pre.document.saved is None),
                DocumentMessage::Undo => post.document.saved is None && match pre.document.state()
                    .saved {
                    Some(snap) => post.document.layers@ == snap.0 && post.document.selection@
                        == snap.1,
                    None => post.document.visible() == pre.document.visible()
                        && post.document.violation,
                },
                DocumentMessage::DeselectAllLayers => post.document.selection@.len() == 0
                    && post.document.layers@ == pre.document.layers@ && post.document.saved
                    == pre.document.saved,
                _ => post.document == pre.document,
            }
        },
        Message::GraphOperation(g) => {
            &&& post.queue@ == pre.queue@
            &&& post.frontend@ == pre.frontend@
            &&& post.tool.fsm_state == pre.tool.fsm_state
            &&& post.document.saved == pre.document.saved
            &&& match g {
                GraphOperationMessage::TransformChange { layer, translation, .. } => {
                    if -4 * COORD_LIMIT <= translation.x <= 4 * COORD_LIMIT && -4 * COORD_LIMIT
                        <= translation.y <= 4 * COORD_LIMIT {
                        match crate::document::live_index_of(pre.document.layers@, layer) {
                            Some(root) => post.document.layers@
                                == crate::document::translate_subtree_spec(
                                pre.document.layers@,
                                root,
                                translation,
                            ) && post.document.selection@ == pre.document.selection@,
                            None => post.document.visible() == pre.document.visible(),
                        }
                    } else {
                        post.document.visible() == pre.document.visible()
                    }
                },
                GraphOperationMessage::DeleteLayer { id } => {
                    match crate::document::live_index_of(pre.document.layers@, id) {
                        Some(root) => post.document.layers@
                            == crate::document::tombstone_subtree_spec(pre.document.layers@, root)
                            && post.document.selection@ == crate::document::retain_live_spec(
                            post.document.layers@,
                            pre.document.selection@,
                        ),
                        None => post.document.visible() == pre.document.visible(),
                    }
                },
                GraphOperationMessage::DuplicateLayer { .. } => post.document.selection@
                    == pre.document.selection@,
            }
        },
        Message::NodeGraph(NodeGraphMessage::SelectedNodesSet { nodes }) => {
            &&& post.queue@ == pre.queue@
            &&& post.frontend@ == pre.frontend@
            &&& post.tool.fsm_state == pre.tool.fsm_state
            &&& post.document.layers@ == pre.document.layers@
            &&& post.document.saved == pre.document.saved
            &&& post.document.selection@ == crate::document::normalize_selection_spec(
                pre.document.layers@,
                nodes@,
            )
        },
        Message::Frontend(f) => {
            &&& post.queue@ == pre.queue@
            &&& post.frontend@ == pre.frontend@.push(f)
            &&& post.document == pre.document
            &&& post.tool.fsm_state == pre.tool.fsm_state
        },
        Message::Dialog(_) | Message::Portfolio(_) => {
            &&& post.queue@ == pre.queue@
            &&& post.frontend@ == pre.frontend@
            &&& post.document == pre.document
            &&& post.tool.fsm_state == pre.tool.fsm_state
        },
        Message::Tool(tm) => {
            &&& post.document == pre.document
            &&& post.frontend@ == pre.frontend@
            &&& match tm {
                ToolMessage::Select(ev) => match ev {
                    SelectToolMessage::SelectOptions(_) => true,
                    SelectToolMessage::SetPivot { position } => position
                        != crate::messages::PivotPosition::Unset ==> post.tool.fsm_state
                        == crate::select_tool::next_state_spec(
                        pre.tool.fsm_state,
                        ev,
                        pre.tool.tool_data,
                        pre.document,
                        pre.input,
                    ),
                    _ => post.tool.fsm_state == crate::select_tool::next_state_spec(
                        pre.tool.fsm_state,
                        ev,
                        pre.tool.tool_data,
                        pre.document,
                        pre.input,
                    ),
                },
                _ => post.tool.fsm_state == pre.tool.fsm_state,
            }
        },
    }
}



/// One step of a drain cycle: the front message leaves the queue and is
/// routed, everything else evolving exactly as `route_post` allows for
/// that message.
pub open spec fn drain_step(a: Editor, b: Editor) -> bool {
    &&& a.queue@.len() > 0
    &&& exists|mid: Editor|
        mid.queue@ == a.queue@.skip(1) && mid.tool == a.tool && mid.document == a.document
            && mid.input == a.input && mid.frontend == a.frontend && #[trigger] route_post(
            mid,
            b,
            a.queue@[0],
        )
}

/// A full drain cycle, witnessed step by step: the trace starts at the
/// state drain began in, every link pops and routes one message, it ends
/// at the final state, and the cycle is quiescent exactly when the queue
/// emptied within the cap.
pub open spec fn drain_trace_ok(
    trace: Seq<Editor>,
    pre: Editor,
    post: Editor,
    outcome: DrainOutcome,
) -> bool {
    &&& trace.len() >= 1
    &&& trace.len() <= DISPATCH_CAP + 1
    &&& trace[0] == pre
    &&& trace.last() == post
    &&& forall|k: int| 0 <= k < trace.len() - 1 ==> drain_step(#[trigger] trace[k], trace[k + 1])
    &&& (outcome == DrainOutcome::Quiescent <==> post.queue@.len() == 0)
    &&& (outcome == DrainOutcome::CapExceeded ==> trace.len() == DISPATCH_CAP + 1)
}

/// Whether `m` is one of the three transaction-boundary commands.  All of
/// a drag gesture's intermediate messages — transforms, selection resets,
/// duplications, overlay and UI refreshes — are not.
pub open spec fn transaction_boundary_msg(m: Message) -> bool {
    match m {
        Message::Portfolio(PortfolioMessage::Document(dm)) => match dm {
            DocumentMessage::StartTransaction => true,
            DocumentMessage::CommitTransaction => true,
            DocumentMessage::Undo => true,
            _ => false,
        },
        _ => false,
    }
}

/// Law: only a transaction boundary can touch the open transaction's
/// rollback state.  Every other routed message — in particular everything
/// a pointer move emits mid-drag — leaves the state saved when the drag
/// began intact, so the commit-epsilon decision at the drag's end either
/// restores exactly the pre-drag document (undo) or keeps the edits
/// (commit).
pub proof fn law_non_boundary_messages_preserve_rollback(pre: Editor, post: Editor, m: Message)
    requires
        route_post(pre, post, m),
        !transaction_boundary_msg(m),
    ensures
        post.document.saved == pre.document.saved,
{
}

/// Returning a layer to its pre-drag anchor and then moving it to the live
/// cursor lands it exactly where dragging it straight there would have:
/// the two compensating translations of the duplicate-on-drag protocol
/// cancel.  Stated away from the viewport edge, where clamping cannot cut
/// the intermediate position short.
pub proof fn law_duplicate_toggle_translations_cancel(
    p: ViewportPosition,
    start: ViewportPosition,
    current: ViewportPosition,
)
    requires
        p.in_bounds(),
        start.in_bounds(),
        current.in_bounds(),
        (-COORD_LIMIT <= p.x + (start.x - current.x) <= COORD_LIMIT),
        (-COORD_LIMIT <= p.y + (start.y - current.y) <= COORD_LIMIT),
    ensures
        translate_spec(
            translate_spec(p, delta_spec(start, current)),
            delta_spec(current, start),
        ) == p,
{
}

} // verus!
