//! The Select tool: the worked-out finite-state machine exemplar.
//!
//! One state is current at any time; the transition function consumes one
//! tool-scoped message, updates the tool's working data, and emits further
//! messages — document mutations, transaction boundaries, overlay updates
//! and UI refreshes — through the response queue.  Undefined
//! (state, message) pairs are no-ops by design: the transition relation is
//! total.

use vstd::prelude::*;
use crate::geometry::{
    COORD_LIMIT, Rect, SELECTION_TOLERANCE, ViewportPosition, axis_align_drag_spec,
    below_commit_epsilon, delta_spec, rect_from_corners_spec,
};
use crate::messages::{
    DocumentMessage, GraphOperationMessage, InputState, Message, MouseCursorIcon,
    NestedSelectionBehavior, NodeGraphMessage, SelectOptionsUpdate, SelectToolMessage,
    TransformIn, doc_msg,
};
use crate::document::{
    DocumentModel, ID_LIMIT, Layer, click_spec, first_child_of_chain, first_in_chain,
    intersect_quad_spec, live_index_of, selection_bbox_spec, shallowest_unique_spec,
    top_ancestor_of,
};
use crate::overlays::{
    BoundingBoxOverlays, OriginalTransform, OverlayIdSource, PathOutline, Pivot, SnapManager,
};
use crate::queue::MessageQueue;

verus! {

/// The Select tool's states.  `Ready` is both initial and terminal.
#[derive(Clone, Copy, Debug, PartialEq, Eq, Structural)]
pub enum SelectToolFsmState {
    Ready,
    Dragging,
    DrawingBox,
    ResizingBounds,
    RotatingBounds,
    DraggingPivot,
}

impl Default for SelectToolFsmState {
    /// The tool starts idle.
    fn default() -> (r: SelectToolFsmState)
        ensures
            r == SelectToolFsmState::Ready,
    {
        SelectToolFsmState::Ready
    }
}

/// The Select tool's private working data: drag anchors, the dragged set,
/// transient flags, and the owned overlay collaborators.
pub struct SelectToolData {
    pub drag_start: ViewportPosition,
    pub drag_current: ViewportPosition,
    pub layers_dragging: Vec<u64>,
    pub layer_selected_on_start: Option<u64>,
    pub select_single_layer: Option<u64>,
    pub has_dragged: bool,
    /// While the duplicate-on-drag protocol is engaged: the set that was
    /// being dragged before the snapshot was taken.
    pub not_duplicated_layers: Option<Vec<u64>>,
    /// The rubber-band overlay, outstanding exactly in `DrawingBox`.
    pub drag_box_overlay_layer: Option<u64>,
    pub path_outlines: PathOutline,
    pub bounding_box_overlays: Option<BoundingBoxOverlays>,
    pub snap_manager: SnapManager,
    pub cursor: MouseCursorIcon,
    pub pivot: Pivot,
    pub nested_selection_behavior: NestedSelectionBehavior,
    pub selected_layers_count: usize,
    pub selected_layers_changed: bool,
    pub overlay_ids: OverlayIdSource,
}

impl SelectToolData {
    /// Working-data well-formedness: anchors on screen, collaborators well
    /// formed.
    pub open spec fn wf(self) -> bool {
        &&& self.drag_start.in_bounds()
        &&& self.drag_current.in_bounds()
        &&& self.pivot.wf()
        &&& match self.bounding_box_overlays {
            Some(b) => b.bounds.wf() && (forall|k: int|
                0 <= k < b.original_transforms@.len() ==> (#[trigger] b.original_transforms@[k])
                    .position.in_bounds()),
            None => true,
        }
    }

    /// Fresh working data, created on tool activation.
    pub fn new() -> (r: SelectToolData)
        ensures
            r.wf(),
            r.layers_dragging@.len() == 0,
            r.not_duplicated_layers is None,
            r.drag_box_overlay_layer is None,
            r.bounding_box_overlays is None,
            !r.snap_manager.active,
            r.nested_selection_behavior == NestedSelectionBehavior::Deepest,
            r.selected_layers_count == 0,
            !r.selected_layers_changed,
            r.path_outlines.hovered_overlay is None,
            r.path_outlines.selected_overlays@.len() == 0,
            r.pivot.overlay is None,
            !r.has_dragged,
            r.layer_selected_on_start is None,
            r.select_single_layer is None,
    {
        SelectToolData {
            drag_start: ViewportPosition { x: 0, y: 0 },
            drag_current: ViewportPosition { x: 0, y: 0 },
            layers_dragging: Vec::new(),
            layer_selected_on_start: None,
            select_single_layer: None,
            has_dragged: false,
            not_duplicated_layers: None,
            drag_box_overlay_layer: None,
            path_outlines: PathOutline::new(),
            bounding_box_overlays: None,
            snap_manager: SnapManager::new(),
            cursor: MouseCursorIcon::Default,
            pivot: Pivot::new(),
            nested_selection_behavior: NestedSelectionBehavior::Deepest,
            selected_layers_count: 0,
            selected_layers_changed: false,
            overlay_ids: OverlayIdSource::new(),
        }
    }

    /// The rubber-band region: the box between the drag anchors, or a
    /// small tolerance square when the pointer has not moved.
    pub open spec fn selection_box_spec(self) -> Rect {
        if self.drag_current == self.drag_start {
            Rect {
                min: ViewportPosition {
                    x: (self.drag_start.x - SELECTION_TOLERANCE) as i64,
                    y: (self.drag_start.y - SELECTION_TOLERANCE) as i64,
                },
                max: ViewportPosition {
                    x: (self.drag_start.x + SELECTION_TOLERANCE) as i64,
                    y: (self.drag_start.y + SELECTION_TOLERANCE) as i64,
                },
            }
        } else {
            rect_from_corners_spec(self.drag_start, self.drag_current)
        }
    }

    /// Computes the rubber-band region.
    pub fn selection_box(&self) -> (r: Rect)
        requires
            self.wf(),
        ensures
            r == self.selection_box_spec(),
    {
        if self.drag_current.x == self.drag_start.x && self.drag_current.y == self.drag_start.y {
            Rect {
                min: ViewportPosition {
                    x: self.drag_start.x - SELECTION_TOLERANCE,
                    y: self.drag_start.y - SELECTION_TOLERANCE,
                },
                max: ViewportPosition {
                    x: self.drag_start.x + SELECTION_TOLERANCE,
                    y: self.drag_start.y + SELECTION_TOLERANCE,
                },
            }
        } else {
            crate::geometry::rect_from_corners(self.drag_start, self.drag_current)
        }
    }

    /// The rubber-band region as the quad handed to region hit-testing.
    pub fn selection_quad(&self) -> (r: Rect)
        requires
            self.wf(),
        ensures
            r == self.selection_box_spec(),
    {
        self.selection_box()
    }

    /// Engages the duplicate-on-drag protocol: snapshots the dragged set,
    /// returns the originals to their pre-drag position, and makes
    /// independent copies at the live cursor the new dragged and selected
    /// set.  Without identity capacity the protocol does not engage and
    /// nothing changes.
    pub fn start_duplicates(
        &mut self,
        document: &DocumentModel,
        responses: &mut MessageQueue,
    )
        requires
            old(self).wf(),
            document.wf(),
        ensures
            final(self).wf(),
            ({
                let roots = shallowest_unique_spec(document.layers@, old(self).layers_dragging@);
                let back = delta_spec(old(self).drag_start, old(self).drag_current);
                let fwd = delta_spec(old(self).drag_current, old(self).drag_start);
                if dup_capacity(document.next_id, roots.len() as int) {
                    &&& match final(self).not_duplicated_layers {
                        Some(o) => o@ == old(self).layers_dragging@,
                        None => false,
                    }
                    &&& final(self).layers_dragging@ == fresh_ids(document.next_id, roots.len() as int)
                    &&& final(responses)@.len() > 0
                    &&& final(responses)@.drop_last() == translate_msgs(roots, back, true).reverse()
                        + old(responses)@ + seq![doc_msg(DocumentMessage::DeselectAllLayers)]
                        + dup_msgs(roots, document.next_id, fwd)
                    &&& selected_nodes_msg(
                        final(responses)@.last(),
                        fresh_ids(document.next_id, roots.len() as int),
                    )
                } else {
                    &&& *final(self) == *old(self)
                    &&& final(responses)@ == old(responses)@
                }
            }),
            unchanged_but_duplicates(*old(self), *final(self)),
    {
        let roots = document.shallowest_unique(&self.layers_dragging);
        let count = roots.len();
        if !(count as u64 <= ID_LIMIT - document.next_id) {
            return ;
        }
        responses.add(crate::messages::make_doc_msg(DocumentMessage::DeselectAllLayers));
        let back = crate::geometry::delta(self.drag_start, self.drag_current);
        let fwd = crate::geometry::delta(self.drag_current, self.drag_start);
        let ghost emitted: Seq<Message> = Seq::empty();
        let mut new_ids: Vec<u64> = Vec::new();
        let mut k: usize = 0;
        let ghost mid = responses@;
        while k < roots.len()
            invariant
                0 <= k <= roots@.len(),
                roots@.len() as u64 <= ID_LIMIT - document.next_id,
                document.next_id <= ID_LIMIT,
                responses@ == translate_msgs(roots@.subrange(0, k as int), back, true).reverse()
                    + mid + dup_msgs(roots@.subrange(0, k as int), document.next_id, fwd),
                new_ids@ == fresh_ids(document.next_id, k as int),
            decreases roots@.len() - k,
        {
            let id = roots[k];
            let new_id = document.next_id + (k as u64);
            responses.add_front(
                Message::GraphOperation(
                    GraphOperationMessage::TransformChange {
                        layer: id,
                        translation: back,
                        transform_in: TransformIn::Viewport,
                        skip_rerender: true,
                    },
                ),
            );
            responses.add(
                Message::GraphOperation(
                    GraphOperationMessage::DuplicateLayer {
                        source: id,
                        new_id,
                        offset: fwd,
                    },
                ),
            );
            new_ids.push(new_id);
            proof {
                let pre = roots@.subrange(0, k as int);
                let cur = roots@.subrange(0, k + 1);
                assert(cur.drop_last() =~= pre);
                assert(translate_msgs(cur, back, true) =~= translate_msgs(pre, back, true).push(
                    transform_msg(roots@[k as int], back, true),
                ));
                assert(translate_msgs(cur, back, true).reverse() =~= seq![
                    transform_msg(roots@[k as int], back, true),
                ] + translate_msgs(pre, back, true).reverse());
                assert(dup_msgs(cur, document.next_id, fwd) =~= dup_msgs(
                    pre,
                    document.next_id,
                    fwd,
                ).push(dup_msg(roots@[k as int], (document.next_id + k) as u64, fwd)));
                assert(new_ids@ =~= fresh_ids(document.next_id, k + 1));
                assert(responses@ =~= translate_msgs(cur, back, true).reverse() + mid + dup_msgs(
                    cur,
                    document.next_id,
                    fwd,
                ));
            }
            k = k + 1;
        }
        proof {
            assert(roots@.subrange(0, roots@.len() as int) =~= roots@);
        }
        responses.add(
            Message::NodeGraph(NodeGraphMessage::SelectedNodesSet { nodes: crate::document::copy_ids(&new_ids) }),
        );
        let originals_snapshot = crate::document::copy_ids(&self.layers_dragging);
        self.not_duplicated_layers = Some(originals_snapshot);
        self.layers_dragging = new_ids;
        proof {
            assert(responses@.drop_last() =~= translate_msgs(roots@, back, true).reverse() + old(
                responses,
            )@ + seq![doc_msg(DocumentMessage::DeselectAllLayers)] + dup_msgs(
                roots@,
                document.next_id,
                fwd,
            ));
        }
    }

    /// Disengages the duplicate-on-drag protocol: deletes the duplicated
    /// set, moves the originals to the live cursor position, and reselects
    /// the originals.  With the protocol not engaged, nothing changes.
    pub fn stop_duplicates(
        &mut self,
        document: &DocumentModel,
        responses: &mut MessageQueue,
    )
        requires
            old(self).wf(),
            document.wf(),
        ensures
            final(self).wf(),
            ({
                match old(self).not_duplicated_layers {
                    Some(originals) => {
                        let dup_roots = shallowest_unique_spec(
                            document.layers@,
                            old(self).layers_dragging@,
                        );
                        let orig_roots = shallowest_unique_spec(document.layers@, originals@);
                        let fwd = delta_spec(old(self).drag_current, old(self).drag_start);
                        &&& final(self).not_duplicated_layers is None
                        &&& final(self).layers_dragging@ == originals@
                        &&& final(responses)@.len() > 0
                        &&& final(responses)@.drop_last() == translate_msgs(orig_roots, fwd, true)
                            .reverse() + old(responses)@ + seq![
                            doc_msg(DocumentMessage::DeselectAllLayers),
                        ] + delete_msgs(dup_roots)
                        &&& selected_nodes_msg(final(responses)@.last(), originals@)
                    },
                    None => *final(self) == *old(self) && final(responses)@ == old(responses)@,
                }
            }),
            unchanged_but_duplicates(*old(self), *final(self)),
    {
        let originals = match self.not_duplicated_layers.take() {
            Some(o) => o,
            None => {
                return ;
            },
        };
        responses.add(crate::messages::make_doc_msg(DocumentMessage::DeselectAllLayers));
        let dup_roots = document.shallowest_unique(&self.layers_dragging);
        let ghost mid = responses@;
        let mut k: usize = 0;
        while k < dup_roots.len()
            invariant
                0 <= k <= dup_roots@.len(),
                responses@ == mid + delete_msgs(dup_roots@.subrange(0, k as int)),
            decreases dup_roots@.len() - k,
        {
            responses.add(
                Message::GraphOperation(
                    GraphOperationMessage::DeleteLayer { id: dup_roots[k] },
                ),
            );
            proof {
                let pre = dup_roots@.subrange(0, k as int);
                let cur = dup_roots@.subrange(0, k + 1);
                assert(cur.drop_last() =~= pre);
                assert(delete_msgs(cur) =~= delete_msgs(pre).push(
                    Message::GraphOperation(
                        GraphOperationMessage::DeleteLayer { id: dup_roots@[k as int] },
                    ),
                ));
                assert(responses@ =~= mid + delete_msgs(cur));
            }
            k = k + 1;
        }
        proof {
            assert(dup_roots@.subrange(0, dup_roots@.len() as int) =~= dup_roots@);
        }
        let fwd = crate::geometry::delta(self.drag_current, self.drag_start);
        let orig_roots = document.shallowest_unique(&originals);
        let ghost mid2 = responses@;
        let mut k2: usize = 0;
        while k2 < orig_roots.len()
            invariant
                0 <= k2 <= orig_roots@.len(),
                responses@ == translate_msgs(orig_roots@.subrange(0, k2 as int), fwd, true)
                    .reverse() + mid2,
            decreases orig_roots@.len() - k2,
        {
            responses.add_front(
                Message::GraphOperation(
                    GraphOperationMessage::TransformChange {
                        layer: orig_roots[k2],
                        translation: fwd,
                        transform_in: TransformIn::Viewport,
                        skip_rerender: true,
                    },
                ),
            );
            proof {
                let pre = orig_roots@.subrange(0, k2 as int);
                let cur = orig_roots@.subrange(0, k2 + 1);
                assert(cur.drop_last() =~= pre);
                assert(translate_msgs(cur, fwd, true) =~= translate_msgs(pre, fwd, true).push(
                    transform_msg(orig_roots@[k2 as int], fwd, true),
                ));
                assert(translate_msgs(cur, fwd, true).reverse() =~= seq![
                    transform_msg(orig_roots@[k2 as int], fwd, true),
                ] + translate_msgs(pre, fwd, true).reverse());
                assert(responses@ =~= translate_msgs(cur, fwd, true).reverse() + mid2);
            }
            k2 = k2 + 1;
        }
        proof {
            assert(orig_roots@.subrange(0, orig_roots@.len() as int) =~= orig_roots@);
        }
        responses.add(
            Message::NodeGraph(NodeGraphMessage::SelectedNodesSet { nodes: crate::document::copy_ids(&originals) }),
        );
        self.layers_dragging = originals;
        proof {
            assert(responses@.drop_last() =~= translate_msgs(orig_roots@, fwd, true).reverse()
                + old(responses)@ + seq![doc_msg(DocumentMessage::DeselectAllLayers)]
                + delete_msgs(dup_roots@));
        }
    }
}

/// The duplicate protocol leaves everything but the dragged set, its
/// snapshot and the queue alone.
pub open spec fn unchanged_but_duplicates(a: SelectToolData, b: SelectToolData) -> bool {
    &&& b.drag_start == a.drag_start
    &&& b.drag_current == a.drag_current
    &&& b.layer_selected_on_start == a.layer_selected_on_start
    &&& b.select_single_layer == a.select_single_layer
    &&& b.has_dragged == a.has_dragged
    &&& b.drag_box_overlay_layer == a.drag_box_overlay_layer
    &&& b.path_outlines.hovered_overlay == a.path_outlines.hovered_overlay
    &&& b.path_outlines.selected_overlays@ == a.path_outlines.selected_overlays@
    &&& b.snap_manager == a.snap_manager
    &&& b.cursor == a.cursor
    &&& b.pivot == a.pivot
    &&& b.nested_selection_behavior == a.nested_selection_behavior
    &&& b.selected_layers_count == a.selected_layers_count
    &&& b.selected_layers_changed == a.selected_layers_changed
    &&& match a.bounding_box_overlays {
        Some(x) => b.bounding_box_overlays is Some,
        None => b.bounding_box_overlays is None,
    }
}

/// Whether `count` more identities can be allocated from `next_id`.
pub open spec fn dup_capacity(next_id: u64, count: int) -> bool {
    next_id + count <= ID_LIMIT
}

/// `count` consecutive fresh identities starting at `base`.
pub open spec fn fresh_ids(base: u64, count: int) -> Seq<u64> {
    Seq::new(count as nat, |k: int| (base + k) as u64)
}

/// Whether `m` replaces the selected set with exactly `ids`.
pub open spec fn selected_nodes_msg(m: Message, ids: Seq<u64>) -> bool {
    match m {
        Message::NodeGraph(NodeGraphMessage::SelectedNodesSet { nodes }) => nodes@ == ids,
        _ => false,
    }
}

/// One incremental translation message.
pub open spec fn transform_msg(layer: u64, t: ViewportPosition, skip: bool) -> Message {
    Message::GraphOperation(
        GraphOperationMessage::TransformChange {
            layer,
            translation: t,
            transform_in: TransformIn::Viewport,
            skip_rerender: skip,
        },
    )
}

/// The same incremental translation for each listed layer, in order.
pub open spec fn translate_msgs(roots: Seq<u64>, t: ViewportPosition, skip: bool) -> Seq<Message> {
    Seq::new(roots.len(), |k: int| transform_msg(roots[k], t, skip))
}

/// One duplication message.
pub open spec fn dup_msg(source: u64, new_id: u64, offset: ViewportPosition) -> Message {
    Message::GraphOperation(GraphOperationMessage::DuplicateLayer { source, new_id, offset })
}

/// One duplication per listed layer, identities allocated consecutively.
pub open spec fn dup_msgs(roots: Seq<u64>, base: u64, offset: ViewportPosition) -> Seq<Message> {
    Seq::new(roots.len(), |k: int| dup_msg(roots[k], (base + k) as u64, offset))
}

/// One deletion per listed layer, in order.
pub open spec fn delete_msgs(roots: Seq<u64>) -> Seq<Message> {
    Seq::new(
        roots.len(),
        |k: int| Message::GraphOperation(GraphOperationMessage::DeleteLayer { id: roots[k] }),
    )
}


/// The transition table's domain: which (state, message) pairs have defined
/// behaviour.  Everything else is consumed as a no-op by design.
pub open spec fn transition_defined(state: SelectToolFsmState, event: SelectToolMessage) -> bool {
    match event {
        SelectToolMessage::DocumentIsDirty => true,
        SelectToolMessage::SelectionChanged => true,
        SelectToolMessage::EditLayer => true,
        SelectToolMessage::Abort => true,
        SelectToolMessage::SetPivot { .. } => true,
        SelectToolMessage::PointerMove { .. } => true,
        SelectToolMessage::Enter => true,
        SelectToolMessage::DragStart { .. } => state == SelectToolFsmState::Ready,
        SelectToolMessage::DragStop { .. } => state != SelectToolFsmState::Ready,
        SelectToolMessage::SelectOptions(_) => false,
    }
}

/// The state the machine moves to: the full transition table, with the
/// deterministic precedence of the drag-start branches spelled out.
pub open spec fn next_state_spec(
    state: SelectToolFsmState,
    event: SelectToolMessage,
    td: SelectToolData,
    doc: DocumentModel,
    input: InputState,
) -> SelectToolFsmState {
    if !transition_defined(state, event) {
        state
    } else {
        match event {
            SelectToolMessage::DocumentIsDirty => state,
            SelectToolMessage::SelectionChanged => state,
            SelectToolMessage::EditLayer => state,
            SelectToolMessage::SetPivot { .. } => state,
            SelectToolMessage::Abort => SelectToolFsmState::Ready,
            SelectToolMessage::DragStart { .. } => drag_start_target(td, doc, input),
            SelectToolMessage::PointerMove { .. } => state,
            SelectToolMessage::Enter => SelectToolFsmState::Ready,
            SelectToolMessage::DragStop { .. } => SelectToolFsmState::Ready,
            SelectToolMessage::SelectOptions(_) => state,
        }
    }
}

/// Where a drag begun in `Ready` goes: pivot-handle hit beats a bounds-edge
/// hit, which beats the rotate trigger, which beats a click inside the
/// current selection, which beats a click on a new object, with empty space
/// falling through to the rubber band.
pub open spec fn drag_start_target(
    td: SelectToolData,
    doc: DocumentModel,
    input: InputState,
) -> SelectToolFsmState {
    let mouse = input.mouse.position;
    if td.pivot.is_over_spec(mouse) {
        SelectToolFsmState::DraggingPivot
    } else if dragging_bounds_spec(td, mouse) {
        SelectToolFsmState::ResizingBounds
    } else if rotating_bounds_spec(td, mouse) {
        SelectToolFsmState::RotatingBounds
    } else if clicked_inside_selection(td, doc, mouse) {
        SelectToolFsmState::Dragging
    } else if click_spec(doc.layers@, mouse) is Some {
        SelectToolFsmState::Dragging
    } else {
        SelectToolFsmState::DrawingBox
    }
}

/// Whether the pointer grabbed a bounds edge.
pub open spec fn dragging_bounds_spec(td: SelectToolData, mouse: ViewportPosition) -> bool {
    match td.bounding_box_overlays {
        Some(b) => b.check_selected_edges_spec(mouse) is Some,
        None => false,
    }
}

/// Whether the pointer grabbed the rotate trigger.
pub open spec fn rotating_bounds_spec(td: SelectToolData, mouse: ViewportPosition) -> bool {
    match td.bounding_box_overlays {
        Some(b) => !(b.check_selected_edges_spec(mouse) is Some) && b.check_rotate_spec(mouse),
        None => false,
    }
}

/// Whether the click landed on a layer whose ancestor chain meets the
/// current selection, under the policy that enters a direct drag.
pub open spec fn clicked_inside_selection(
    td: SelectToolData,
    doc: DocumentModel,
    mouse: ViewportPosition,
) -> bool {
    td.nested_selection_behavior == NestedSelectionBehavior::Deepest && match click_spec(
        doc.layers@,
        mouse,
    ) {
        Some(clicked) => match live_index_of(doc.layers@, clicked) {
            Some(j) => first_in_chain(doc.layers@, doc.selection@, j) is Some,
            None => false,
        },
        None => false,
    }
}

/// What must hold of the working data in each state.
pub open spec fn state_inv(state: SelectToolFsmState, td: SelectToolData) -> bool {
    state == SelectToolFsmState::DrawingBox <==> td.drag_box_overlay_layer is Some
}

/// The cursor the pointer hover asks for in the idle state.
pub open spec fn hover_cursor_spec(td: SelectToolData, mouse: ViewportPosition) -> MouseCursorIcon {
    if td.pivot.is_over_spec(mouse) {
        MouseCursorIcon::Move
    } else {
        match td.bounding_box_overlays {
            Some(b) => match b.check_selected_edges_spec(mouse) {
                Some((t, bm, l, r)) => if (t && l) || (bm && r) {
                    MouseCursorIcon::NwseResize
                } else if (t && r) || (bm && l) {
                    MouseCursorIcon::NeswResize
                } else if l || r {
                    MouseCursorIcon::EwResize
                } else {
                    MouseCursorIcon::NsResize
                },
                None => MouseCursorIcon::Default,
            },
            None => MouseCursorIcon::Default,
        }
    }
}

/// Climbs from the clicked layer to the first strict ancestor already
/// selected (or the topmost ancestor when none is), makes that the dragged
/// and selected set.  Relies on the shallow depth policy: repeated clicks
/// deepen one level at a time.
pub fn drag_shallowest_manipulation(
    responses: &mut MessageQueue,
    clicked: u64,
    tool_data: &mut SelectToolData,
    document: &DocumentModel,
)
    requires
        old(tool_data).wf(),
        document.wf(),
        live_index_of(document.layers@, clicked) is Some,
    ensures
        final(tool_data).wf(),
        ({
            let j = live_index_of(document.layers@, clicked)->0;
            let target = match first_in_chain(document.layers@, document.selection@, j) {
                Some(m) => document.layers@[m].id,
                None => document.layers@[top_ancestor_of(document.layers@, j)].id,
            };
            &&& final(tool_data).layers_dragging@ == seq![target]
            &&& final(responses)@.len() == old(responses)@.len() + 1
            &&& final(responses)@.drop_last() == old(responses)@
            &&& selected_nodes_msg(final(responses)@.last(), seq![target])
        }),
        unchanged_but_dragging(*old(tool_data), *final(tool_data)),
{
    let j = match document.find_live(clicked) {
        Some(j) => j,
        None => {
            proof {
                assert(false);
            }
            vstd::pervasive::unreached()
        },
    };
    let target = match document.first_selected_ancestor(j) {
        Some(anc) => anc,
        None => document.top_ancestor(j),
    };
    let mut dragging: Vec<u64> = Vec::new();
    dragging.push(target);
    tool_data.layers_dragging = dragging;
    let mut nodes: Vec<u64> = Vec::new();
    nodes.push(target);
    responses.add(Message::NodeGraph(NodeGraphMessage::SelectedNodesSet { nodes }));
}

/// Takes the clicked leaf directly: appends it to the dragged set and
/// selects the whole set.  Relies on the deep depth policy.
pub fn drag_deepest_manipulation(
    responses: &mut MessageQueue,
    clicked: u64,
    tool_data: &mut SelectToolData,
)
    requires
        old(tool_data).wf(),
    ensures
        final(tool_data).wf(),
        final(tool_data).layers_dragging@ == old(tool_data).layers_dragging@.push(clicked),
        final(responses)@.len() == old(responses)@.len() + 1,
        final(responses)@.drop_last() == old(responses)@,
        selected_nodes_msg(final(responses)@.last(), final(tool_data).layers_dragging@),
        unchanged_but_dragging(*old(tool_data), *final(tool_data)),
{
    tool_data.layers_dragging.push(clicked);
    let nodes = crate::document::copy_ids(&tool_data.layers_dragging);
    responses.add(Message::NodeGraph(NodeGraphMessage::SelectedNodesSet { nodes }));
}

/// The fields a dragging-set update leaves alone.
pub open spec fn unchanged_but_dragging(a: SelectToolData, b: SelectToolData) -> bool {
    &&& b.drag_start == a.drag_start
    &&& b.drag_current == a.drag_current
    &&& b.layer_selected_on_start == a.layer_selected_on_start
    &&& b.select_single_layer == a.select_single_layer
    &&& b.has_dragged == a.has_dragged
    &&& b.not_duplicated_layers == a.not_duplicated_layers
    &&& b.drag_box_overlay_layer == a.drag_box_overlay_layer
    &&& b.path_outlines.hovered_overlay == a.path_outlines.hovered_overlay
    &&& b.path_outlines.selected_overlays@ == a.path_outlines.selected_overlays@
    &&& b.snap_manager == a.snap_manager
    &&& b.cursor == a.cursor
    &&& b.pivot == a.pivot
    &&& b.nested_selection_behavior == a.nested_selection_behavior
    &&& b.selected_layers_count == a.selected_layers_count
    &&& b.selected_layers_changed == a.selected_layers_changed
    &&& match a.bounding_box_overlays {
        Some(x) => b.bounding_box_overlays is Some,
        None => b.bounding_box_overlays is None,
    }
}

/// Under shallow selection, a generic edit request on an already-selected
/// layer hands off to the path tool; otherwise it drills the selection one
/// ancestor level toward the clicked layer.
pub fn edit_layer_shallowest_manipulation(
    document: &DocumentModel,
    clicked: u64,
    responses: &mut MessageQueue,
)
    requires
        document.wf(),
        live_index_of(document.layers@, clicked) is Some,
    ensures
        ({
            let j = live_index_of(document.layers@, clicked)->0;
            if document.selection@.contains(clicked) {
                final(responses)@ == seq![
                    Message::Tool(
                        crate::messages::ToolMessage::ActivateTool {
                            tool_type: crate::messages::ToolType::Path,
                        },
                    ),
                ] + old(responses)@
            } else {
                match first_child_of_chain(document.layers@, document.selection@, j) {
                    Some(m) => final(responses)@.len() == old(responses)@.len() + 1
                        && final(responses)@.drop_last() == old(responses)@
                        && selected_nodes_msg(
                        final(responses)@.last(),
                        seq![document.layers@[m].id],
                    ),
                    None => final(responses)@ == old(responses)@,
                }
            }
        }),
{
    if document.selection_contains(clicked) {
        responses.add_front(
            Message::Tool(
                crate::messages::ToolMessage::ActivateTool {
                    tool_type: crate::messages::ToolType::Path,
                },
            ),
        );
        return ;
    }
    let j = match document.find_live(clicked) {
        Some(j) => j,
        None => {
            proof {
                assert(false);
            }
            vstd::pervasive::unreached()
        },
    };
    match document.first_child_of_selected(j) {
        Some(target) => {
            let mut nodes: Vec<u64> = Vec::new();
            nodes.push(target);
            responses.add(Message::NodeGraph(NodeGraphMessage::SelectedNodesSet { nodes }));
        },
        None => {},
    }
}

/// Under deep selection, a generic edit request inspects the clicked
/// object's type and hands the whole tool off: text editing for text,
/// path editing for vector shapes.
pub fn edit_layer_deepest_manipulation(
    clicked: u64,
    document: &DocumentModel,
    responses: &mut MessageQueue,
)
    requires
        document.wf(),
    ensures
        ({
            match live_index_of(document.layers@, clicked) {
                Some(j) => if document.layers@[j].kind == crate::document::LayerKind::Text {
                    final(responses)@ == seq![
                        Message::Tool(
                            crate::messages::ToolMessage::ActivateTool {
                                tool_type: crate::messages::ToolType::Text,
                            },
                        ),
                    ] + old(responses)@ + seq![
                        Message::Tool(
                            crate::messages::ToolMessage::Text(
                                crate::messages::TextToolMessage::EditSelected,
                            ),
                        ),
                    ]
                } else if document.layers@[j].kind == crate::document::LayerKind::Shape {
                    final(responses)@ == seq![
                        Message::Tool(
                            crate::messages::ToolMessage::ActivateTool {
                                tool_type: crate::messages::ToolType::Path,
                            },
                        ),
                    ] + old(responses)@
                } else {
                    final(responses)@ == old(responses)@
                },
                None => final(responses)@ == old(responses)@,
            }
        }),
{
    match document.layer_kind(clicked) {
        Some(crate::document::LayerKind::Text) => {
            responses.add_front(
                Message::Tool(
                    crate::messages::ToolMessage::ActivateTool {
                        tool_type: crate::messages::ToolType::Text,
                    },
                ),
            );
            responses.add(
                Message::Tool(
                    crate::messages::ToolMessage::Text(
                        crate::messages::TextToolMessage::EditSelected,
                    ),
                ),
            );
        },
        Some(crate::document::LayerKind::Shape) => {
            responses.add_front(
                Message::Tool(
                    crate::messages::ToolMessage::ActivateTool {
                        tool_type: crate::messages::ToolType::Path,
                    },
                ),
            );
        },
        _ => {},
    }
}

/// The captured originals for `ids`: each identity with the position its
/// layer holds now (stale identities carry the origin; they are skipped
/// when transforms are emitted).
pub open spec fn captured_spec(layers: Seq<Layer>, ids: Seq<u64>) -> Seq<OriginalTransform> {
    Seq::new(
        ids.len(),
        |k: int| OriginalTransform {
            layer: ids[k],
            position: match live_index_of(layers, ids[k]) {
                Some(j) => layers[j].position,
                None => ViewportPosition { x: 0, y: 0 },
            },
        },
    )
}

/// Captures where each listed layer stands now, for incremental transforms
/// to compose against.
pub fn capture_originals(document: &DocumentModel, ids: &Vec<u64>) -> (r: Vec<OriginalTransform>)
    requires
        document.wf(),
    ensures
        r@ == captured_spec(document.layers@, ids@),
        forall|k: int| 0 <= k < r@.len() ==> (#[trigger] r@[k]).position.in_bounds(),
{
    let mut out: Vec<OriginalTransform> = Vec::new();
    let mut k: usize = 0;
    while k < ids.len()
        invariant
            document.wf(),
            0 <= k <= ids@.len(),
            out@ == captured_spec(document.layers@, ids@).subrange(0, k as int),
            forall|m: int| 0 <= m < out@.len() ==> (#[trigger] out@[m]).position.in_bounds(),
        decreases ids@.len() - k,
    {
        let id = ids[k];
        let position = match document.layer_position(id) {
            Some(p) => p,
            None => ViewportPosition { x: 0, y: 0 },
        };
        proof {
            match live_index_of(document.layers@, id) {
                Some(j) => {
                    crate::document::lemma_live_index_in_range(document.layers@, id);
                    assert(crate::document::layer_wf(document.layers@[j], j));
                },
                None => {},
            }
        }
        out.push(OriginalTransform { layer: id, position });
        proof {
            assert(out@ =~= captured_spec(document.layers@, ids@).subrange(0, k + 1));
        }
        k = k + 1;
    }
    proof {
        assert(captured_spec(document.layers@, ids@).subrange(0, ids@.len() as int)
            =~= captured_spec(document.layers@, ids@));
    }
    out
}

/// Re-anchors every captured layer at its original position displaced by
/// `delta`: the incremental transform of a resize or rotate step, composed
/// against the captured originals rather than accumulated.
pub fn emit_update_transforms(
    document: &DocumentModel,
    originals: &Vec<OriginalTransform>,
    delta: ViewportPosition,
    responses: &mut MessageQueue,
)
    requires
        document.wf(),
        forall|k: int| 0 <= k < originals@.len() ==> (#[trigger] originals@[k]).position.in_bounds(),
        -4 * COORD_LIMIT <= delta.x <= 4 * COORD_LIMIT,
        -4 * COORD_LIMIT <= delta.y <= 4 * COORD_LIMIT,
    ensures
        final(responses)@ == old(responses)@ + crate::overlays::transform_emits(
            document.layers@,
            originals@,
            delta,
        ),
{
    let mut k: usize = 0;
    while k < originals.len()
        invariant
            document.wf(),
            forall|m: int|
                0 <= m < originals@.len() ==> (#[trigger] originals@[m]).position.in_bounds(),
            -4 * COORD_LIMIT <= delta.x <= 4 * COORD_LIMIT,
            -4 * COORD_LIMIT <= delta.y <= 4 * COORD_LIMIT,
            0 <= k <= originals@.len(),
            responses@ == old(responses)@ + crate::overlays::transform_emits(
                document.layers@,
                originals@.subrange(0, k as int),
                delta,
            ),
        decreases originals@.len() - k,
    {
        let ot = originals[k];
        proof {
            assert(originals@.subrange(0, k + 1).drop_last() =~= originals@.subrange(0, k as int));
            assert(originals@.subrange(0, k + 1).last() == originals@[k as int]);
        }
        match document.layer_position(ot.layer) {
            Some(cur) => {
                proof {
                    crate::document::lemma_live_index_in_range(document.layers@, ot.layer);
                    assert(crate::document::layer_wf(
                        document.layers@[live_index_of(document.layers@, ot.layer)->0],
                        live_index_of(document.layers@, ot.layer)->0,
                    ));
                }
                let target = crate::geometry::translate(ot.position, delta);
                let translation = crate::geometry::delta(target, cur);
                responses.add(
                    Message::GraphOperation(
                        GraphOperationMessage::TransformChange {
                            layer: ot.layer,
                            translation,
                            transform_in: TransformIn::Viewport,
                            skip_rerender: false,
                        },
                    ),
                );
            },
            None => {},
        }
        k = k + 1;
    }
    proof {
        assert(originals@.subrange(0, originals@.len() as int) =~= originals@);
    }
}

/// The selected identities that survive deselecting the clicked chain:
/// everything not on the ancestor chain of index `j`.
pub open spec fn deselect_descendant_spec(layers: Seq<Layer>, sel: Seq<u64>, j: int) -> Seq<u64>
    decreases sel.len(),
{
    if sel.len() == 0 {
        Seq::empty()
    } else {
        deselect_descendant_spec(layers, sel.drop_last(), j) + if first_in_chain(
            layers,
            seq![sel.last()],
            j,
        ) is Some {
            Seq::empty()
        } else {
            seq![sel.last()]
        }
    }
}


/// What handling a document-dirty or selection-changed notification does:
/// the selected-layer count and changed flag update to the document's
/// truth, the bounding-box overlay follows the selection bounds, the
/// outlines and pivot refresh, everything gesture-scoped stands still, and
/// only presentation-side messages are appended.
pub open spec fn document_refresh_post(
    pre: SelectToolData,
    post: SelectToolData,
    doc: DocumentModel,
    preq: Seq<Message>,
    postq: Seq<Message>,
) -> bool {
    &&& post.selected_layers_count == doc.selection@.len()
    &&& post.selected_layers_changed == (pre.selected_layers_count != doc.selection@.len())
    &&& match selection_bbox_spec(doc.layers@, doc.selection@) {
        Some(bounds) => post.bounding_box_overlays matches Some(b) && b.bounds == bounds,
        None => post.bounding_box_overlays is None,
    }
    &&& post.pivot.should_refresh
    &&& post.path_outlines.selected_overlays@.len() == doc.selection@.len()
    &&& post.drag_start == pre.drag_start
    &&& post.drag_current == pre.drag_current
    &&& post.layers_dragging@ == pre.layers_dragging@
    &&& post.not_duplicated_layers == pre.not_duplicated_layers
    &&& post.drag_box_overlay_layer == pre.drag_box_overlay_layer
    &&& post.snap_manager == pre.snap_manager
    &&& post.has_dragged == pre.has_dragged
    &&& exists|added: Seq<Message>|
        postq == preq + added && #[trigger] crate::messages::only_presentation_msgs(added)
}

/// Everything the transition function promises, arm by arm.  The
/// surrounding clauses of `transition` add the pieces that hold across all
/// arms (well-formedness, the state table, the no-op law).
pub open spec fn transition_post(
    state: SelectToolFsmState,
    event: SelectToolMessage,
    pre: SelectToolData,
    post: SelectToolData,
    doc: DocumentModel,
    input: InputState,
    preq: Seq<Message>,
    postq: Seq<Message>,
) -> bool {
    let mouse = input.mouse.position;
    if !transition_defined(state, event) {
        post == pre && postq == preq
    } else {
        match event {
            SelectToolMessage::DocumentIsDirty | SelectToolMessage::SelectionChanged => {
                document_refresh_post(pre, post, doc, preq, postq)
            },
            SelectToolMessage::EditLayer => {
                &&& post.selected_layers_count == pre.selected_layers_count
                &&& post.selected_layers_changed == pre.selected_layers_changed
                &&& match click_spec(doc.layers@, mouse) {
                    Some(clicked) => true,
                    None => postq == preq && post == pre,
                }
            },
            SelectToolMessage::DragStart { add_to_selection, .. } => {
                let hov = match pre.path_outlines.hovered_overlay {
                    Some(h) => seq![
                        crate::overlays::overlay_msg(
                            crate::messages::OverlayOperation::DeleteLayer { path: h },
                        ),
                    ],
                    None => Seq::<Message>::empty(),
                };
                let base = preq + hov + seq![doc_msg(DocumentMessage::StartTransaction)];
                &&& post.drag_start == mouse
                &&& post.drag_current == mouse
                &&& post.not_duplicated_layers is None
                &&& post.path_outlines.hovered_overlay is None
                &&& post.selected_layers_count == pre.selected_layers_count
                &&& post.selected_layers_changed == pre.selected_layers_changed
                &&& if pre.pivot.is_over_spec(mouse) {
                    &&& post.snap_manager.active
                    &&& postq == base
                    &&& post.drag_box_overlay_layer is None
                } else if dragging_bounds_spec(pre, mouse) {
                    &&& post.layers_dragging@ == doc.selection@
                    &&& post.bounding_box_overlays matches Some(b) && b.selected_edges is Some
                        && b.original_transforms@ == captured_spec(doc.layers@, doc.selection@)
                    &&& postq == base
                    &&& post.drag_box_overlay_layer is None
                } else if rotating_bounds_spec(pre, mouse) {
                    &&& post.layers_dragging@ == doc.selection@
                    &&& post.bounding_box_overlays matches Some(b) && b.original_transforms@
                        == captured_spec(doc.layers@, doc.selection@)
                    &&& postq == base
                    &&& post.drag_box_overlay_layer is None
                } else if clicked_inside_selection(pre, doc, mouse) {
                    &&& post.select_single_layer == click_spec(doc.layers@, mouse)
                    &&& post.layers_dragging@ == doc.selection@
                    &&& postq == base
                    &&& post.drag_box_overlay_layer is None
                } else {
                    let deselected = !input.keyboard.key_spec(add_to_selection)
                        && pre.nested_selection_behavior == NestedSelectionBehavior::Deepest;
                    let des = if deselected {
                        seq![doc_msg(DocumentMessage::DeselectAllLayers)]
                    } else {
                        Seq::<Message>::empty()
                    };
                    match click_spec(doc.layers@, mouse) {
                        Some(clicked) => {
                            &&& post.layer_selected_on_start == Some(clicked)
                            &&& post.drag_box_overlay_layer is None
                            &&& postq.len() > 0 && postq.drop_last() == base + des
                            &&& match live_index_of(doc.layers@, clicked) {
                                Some(j) => if pre.nested_selection_behavior
                                    == NestedSelectionBehavior::Shallowest {
                                    let target = match first_in_chain(
                                        doc.layers@,
                                        doc.selection@,
                                        j,
                                    ) {
                                        Some(m) => doc.layers@[m].id,
                                        None => doc.layers@[top_ancestor_of(doc.layers@, j)].id,
                                    };
                                    post.layers_dragging@ == seq![target] && selected_nodes_msg(
                                        postq.last(),
                                        seq![target],
                                    )
                                } else {
                                    let before = if deselected {
                                        Seq::<u64>::empty()
                                    } else {
                                        doc.selection@
                                    };
                                    post.layers_dragging@ == before.push(clicked)
                                        && selected_nodes_msg(postq.last(), before.push(clicked))
                                },
                                None => true,
                            }
                        },
                        None => {
                            let shallow_des = if pre.nested_selection_behavior
                                == NestedSelectionBehavior::Shallowest {
                                seq![doc_msg(DocumentMessage::DeselectAllLayers)]
                            } else {
                                Seq::<Message>::empty()
                            };
                            &&& post.drag_box_overlay_layer is Some
                            &&& postq == base + des + shallow_des + seq![
                                crate::overlays::overlay_msg(
                                    crate::messages::OverlayOperation::Add {
                                        path: post.drag_box_overlay_layer->0,
                                        kind: crate::messages::OverlayKind::Rect,
                                    },
                                ),
                            ]
                        },
                    }
                }
            },
            SelectToolMessage::PointerMove { axis_align, snap_angle, center, duplicate } => {
                match state {
                    SelectToolFsmState::Dragging => {
                        let mouse_pos = axis_align_drag_spec(
                            input.keyboard.key_spec(axis_align),
                            mouse,
                            pre.drag_start,
                        );
                        let mouse_delta = delta_spec(mouse_pos, pre.drag_current);
                        let closest = pre.snap_manager.snap_layers_res(mouse_delta);
                        let total = ViewportPosition {
                            x: (mouse_delta.x + closest.x) as i64,
                            y: (mouse_delta.y + closest.y) as i64,
                        };
                        let roots = shallowest_unique_spec(doc.layers@, pre.layers_dragging@);
                        let new_current = crate::geometry::translate_spec(mouse_pos, closest);
                        let q1 = translate_msgs(roots, total, false).reverse() + seq![
                            crate::messages::select_msg(SelectToolMessage::DocumentIsDirty),
                        ] + preq;
                        &&& post.has_dragged
                        &&& post.drag_current == new_current
                        &&& post.drag_start == pre.drag_start
                        &&& post.selected_layers_count == pre.selected_layers_count
                        &&& if input.keyboard.key_spec(duplicate)
                            && pre.not_duplicated_layers is None {
                            let back = delta_spec(pre.drag_start, new_current);
                            let fwd = delta_spec(new_current, pre.drag_start);
                            if dup_capacity(doc.next_id, roots.len() as int) {
                                &&& post.not_duplicated_layers matches Some(o) && o@
                                    == pre.layers_dragging@
                                &&& post.layers_dragging@ == fresh_ids(
                                    doc.next_id,
                                    roots.len() as int,
                                )
                                &&& postq.len() > 0
                                &&& postq.drop_last() == translate_msgs(roots, back, true).reverse()
                                    + q1 + seq![doc_msg(DocumentMessage::DeselectAllLayers)]
                                    + dup_msgs(roots, doc.next_id, fwd)
                                &&& selected_nodes_msg(
                                    postq.last(),
                                    fresh_ids(doc.next_id, roots.len() as int),
                                )
                            } else {
                                &&& post.not_duplicated_layers is None
                                &&& post.layers_dragging@ == pre.layers_dragging@
                                &&& postq == q1
                            }
                        } else if !input.keyboard.key_spec(duplicate)
                            && pre.not_duplicated_layers is Some {
                            let originals = pre.not_duplicated_layers->0;
                            let dup_roots = shallowest_unique_spec(
                                doc.layers@,
                                pre.layers_dragging@,
                            );
                            let orig_roots = shallowest_unique_spec(doc.layers@, originals@);
                            let fwd = delta_spec(new_current, pre.drag_start);
                            &&& post.not_duplicated_layers is None
                            &&& post.layers_dragging@ == originals@
                            &&& postq.len() > 0
                            &&& postq.drop_last() == translate_msgs(orig_roots, fwd, true).reverse()
                                + q1 + seq![doc_msg(DocumentMessage::DeselectAllLayers)]
                                + delete_msgs(dup_roots)
                            &&& selected_nodes_msg(postq.last(), originals@)
                        } else {
                            &&& post.not_duplicated_layers == pre.not_duplicated_layers
                            &&& post.layers_dragging@ == pre.layers_dragging@
                            &&& postq == q1
                        }
                    },
                    SelectToolFsmState::ResizingBounds => {
                        match pre.bounding_box_overlays {
                            Some(b) => match b.selected_edges {
                                Some(edges) => {
                                    let snapped = pre.snap_manager.snap_position_res(mouse);
                                    let full = delta_spec(snapped, pre.drag_start);
                                    let constrained = edges.constrain_delta_spec(full);
                                    &&& postq == preq + crate::overlays::transform_emits(
                                        doc.layers@,
                                        b.original_transforms@,
                                        constrained,
                                    )
                                    &&& post.bounding_box_overlays is Some
                                },
                                None => post == pre && postq == preq,
                            },
                            None => post == pre && postq == preq,
                        }
                    },
                    SelectToolFsmState::RotatingBounds => {
                        match pre.bounding_box_overlays {
                            Some(b) => {
                                let aligned = axis_align_drag_spec(
                                    input.keyboard.key_spec(snap_angle),
                                    mouse,
                                    pre.drag_start,
                                );
                                let turn = delta_spec(aligned, pre.drag_start);
                                &&& postq == preq + crate::overlays::transform_emits(
                                    doc.layers@,
                                    b.original_transforms@,
                                    turn,
                                )
                                &&& post.bounding_box_overlays is Some
                            },
                            None => post == pre && postq == preq,
                        }
                    },
                    SelectToolFsmState::DraggingPivot => {
                        &&& post.pivot.viewport == Some(
                            pre.snap_manager.snap_position_res(mouse),
                        )
                        &&& postq == preq
                    },
                    SelectToolFsmState::DrawingBox => {
                        &&& post.drag_current == mouse
                        &&& pre.drag_box_overlay_layer matches Some(h) && postq == seq![
                            crate::overlays::overlay_msg(
                                crate::messages::OverlayOperation::SetLayerTransformInViewport {
                                    path: h,
                                    transform: crate::messages::OverlayTransform {
                                        origin: pre.drag_start,
                                        extent: mouse,
                                    },
                                },
                            ),
                        ] + preq
                    },
                    SelectToolFsmState::Ready => {
                        &&& post.cursor == hover_cursor_spec(pre, mouse)
                        &&& exists|added: Seq<Message>|
                            postq == preq + added && #[trigger] crate::messages::only_presentation_msgs(added)
                        &&& hover_cursor_spec(pre, mouse) != pre.cursor ==> postq.len() > 0
                            && postq.last() == Message::Frontend(
                            crate::messages::FrontendMessage::UpdateMouseCursor {
                                cursor: hover_cursor_spec(pre, mouse),
                            },
                        )
                    },
                }
            },
            SelectToolMessage::Enter => {
                match state {
                    SelectToolFsmState::Ready => {
                        if doc.selection@.len() == 1 && (match live_index_of(
                            doc.layers@,
                            doc.selection@[0],
                        ) {
                            Some(j) => doc.layers@[j].kind == crate::document::LayerKind::Text,
                            None => false,
                        }) {
                            postq == seq![
                                Message::Tool(
                                    crate::messages::ToolMessage::ActivateTool {
                                        tool_type: crate::messages::ToolType::Text,
                                    },
                                ),
                            ] + preq + seq![
                                Message::Tool(
                                    crate::messages::ToolMessage::Text(
                                        crate::messages::TextToolMessage::EditSelected,
                                    ),
                                ),
                            ] && post == pre
                        } else {
                            postq == preq && post == pre
                        }
                    },
                    SelectToolFsmState::Dragging => {
                        let resp = if below_commit_epsilon(mouse, pre.drag_start) {
                            DocumentMessage::Undo
                        } else {
                            DocumentMessage::CommitTransaction
                        };
                        &&& postq == seq![doc_msg(resp)] + preq
                        &&& !post.snap_manager.active
                    },
                    _ => gesture_end_post(state, pre, post, doc, mouse, preq, postq),
                }
            },
            SelectToolMessage::DragStop { remove_from_selection } => {
                match state {
                    SelectToolFsmState::Dragging => {
                        let resp = if below_commit_epsilon(mouse, pre.drag_start) {
                            DocumentMessage::Undo
                        } else {
                            DocumentMessage::CommitTransaction
                        };
                        let closed = preq + seq![doc_msg(resp)];
                        let common = {
                            &&& !post.has_dragged
                            &&& post.layer_selected_on_start is None
                            &&& post.select_single_layer is None
                            &&& !post.snap_manager.active
                        };
                        if !pre.has_dragged && input.keyboard.key_spec(remove_from_selection)
                            && pre.layer_selected_on_start is None {
                            let hits = intersect_quad_spec(doc.layers@, pre.selection_box_spec());
                            if hits.len() > 0 && live_index_of(doc.layers@, hits.last()) is Some {
                                let j = live_index_of(doc.layers@, hits.last())->0;
                                let replacement = deselect_descendant_spec(
                                    doc.layers@,
                                    doc.selection@,
                                    j,
                                );
                                &&& common
                                &&& post.layers_dragging@ == replacement
                                &&& postq.len() > 0 && postq.drop_last() == closed
                                &&& selected_nodes_msg(postq.last(), replacement)
                            } else {
                                common && postq == closed
                            }
                        } else if pre.select_single_layer is Some && !pre.has_dragged {
                            let single = pre.select_single_layer->0;
                            &&& common
                            &&& postq.len() > 0 && postq.drop_last() == closed
                            &&& selected_nodes_msg(postq.last(), seq![single])
                        } else {
                            common && postq == closed
                        }
                    },
                    _ => gesture_end_post(state, pre, post, doc, mouse, preq, postq),
                }
            },
            SelectToolMessage::Abort => {
                let front = match pre.drag_box_overlay_layer {
                    Some(h) => seq![
                        crate::overlays::overlay_msg(
                            crate::messages::OverlayOperation::DeleteLayer { path: h },
                        ),
                    ],
                    None => Seq::<Message>::empty(),
                };
                let undo_part = if state != SelectToolFsmState::Ready {
                    seq![doc_msg(DocumentMessage::Undo)]
                } else {
                    Seq::<Message>::empty()
                };
                let reverts = match pre.bounding_box_overlays {
                    Some(b) => crate::overlays::transform_emits(
                        doc.layers@,
                        b.original_transforms@,
                        ViewportPosition { x: 0, y: 0 },
                    ),
                    None => Seq::<Message>::empty(),
                };
                let bbox_del = match pre.bounding_box_overlays {
                    Some(b) => seq![
                        crate::overlays::overlay_msg(
                            crate::messages::OverlayOperation::DeleteLayer { path: b.overlay },
                        ),
                    ],
                    None => Seq::<Message>::empty(),
                };
                let hov_del = match pre.path_outlines.hovered_overlay {
                    Some(h) => seq![
                        crate::overlays::overlay_msg(
                            crate::messages::OverlayOperation::DeleteLayer { path: h },
                        ),
                    ],
                    None => Seq::<Message>::empty(),
                };
                let sel_dels = crate::overlays::delete_overlay_msgs(
                    pre.path_outlines.selected_overlays@,
                );
                let piv_del = match pre.pivot.overlay {
                    Some(h) => seq![
                        crate::overlays::overlay_msg(
                            crate::messages::OverlayOperation::DeleteLayer { path: h },
                        ),
                    ],
                    None => Seq::<Message>::empty(),
                };
                &&& !post.snap_manager.active
                &&& post.drag_box_overlay_layer is None
                &&& post.bounding_box_overlays is None
                &&& post.pivot.overlay is None
                &&& post.path_outlines.hovered_overlay is None
                &&& post.path_outlines.selected_overlays@.len() == 0
                &&& postq == front + preq + undo_part + reverts + bbox_del + hov_del + sel_dels
                    + piv_del
            },
            SelectToolMessage::SetPivot { position } => {
                &&& postq == preq + seq![doc_msg(DocumentMessage::StartTransaction)]
                &&& post.pivot.normalized == position.to_normalized_spec()->0
                &&& post.pivot.should_refresh
            },
            SelectToolMessage::SelectOptions(_) => post == pre && postq == preq,
        }
    }
}

/// What every resize, rotate, pivot-drag and rubber-band gesture promises
/// when it ends: commit or undo decided by the commit epsilon, transient
/// state released; the rubber band instead selects what it covered.
pub open spec fn gesture_end_post(
    state: SelectToolFsmState,
    pre: SelectToolData,
    post: SelectToolData,
    doc: DocumentModel,
    mouse: ViewportPosition,
    preq: Seq<Message>,
    postq: Seq<Message>,
) -> bool {
    let resp = if below_commit_epsilon(mouse, pre.drag_start) {
        DocumentMessage::Undo
    } else {
        DocumentMessage::CommitTransaction
    };
    if state == SelectToolFsmState::DrawingBox {
        let hits = intersect_quad_spec(doc.layers@, pre.selection_box_spec());
        &&& post.drag_box_overlay_layer is None
        &&& post.layers_dragging@ == hits
        &&& !post.snap_manager.active
        &&& pre.drag_box_overlay_layer matches Some(h) && postq.len() == preq.len() + 3 && postq[0]
            == crate::overlays::overlay_msg(
            crate::messages::OverlayOperation::DeleteLayer { path: h },
        ) && postq[1] == doc_msg(resp) && selected_nodes_msg(postq[2], hits) && postq.subrange(
            3,
            postq.len() as int,
        ) == preq
    } else {
        &&& postq == preq + seq![doc_msg(resp)]
        &&& !post.snap_manager.active
        &&& match post.bounding_box_overlays {
            Some(b) => (state == SelectToolFsmState::ResizingBounds || state
                == SelectToolFsmState::RotatingBounds) ==> b.original_transforms@.len() == 0,
            None => true,
        }
    }
}

impl SelectToolFsmState {
    /// Consumes one tool-scoped message: updates the working data, emits
    /// the follow-on messages, and returns the next state.  The transition
    /// relation is total: pairs outside the table consume the message
    /// without any effect.
    #[verifier::rlimit(100)]
    pub fn transition(
        self,
        event: SelectToolMessage,
        tool_data: &mut SelectToolData,
        document: &DocumentModel,
        input: &InputState,
        responses: &mut MessageQueue,
    ) -> (next: SelectToolFsmState)
        requires
            old(tool_data).wf(),
            state_inv(self, *old(tool_data)),
            document.wf(),
            input.wf(),
            event matches SelectToolMessage::SetPivot { position } ==> position
                != crate::messages::PivotPosition::Unset,
        ensures
            final(tool_data).wf(),
            state_inv(next, *final(tool_data)),
            next == next_state_spec(self, event, *old(tool_data), *document, *input),
            final(tool_data).nested_selection_behavior == old(tool_data).nested_selection_behavior,
            !(event matches SelectToolMessage::DocumentIsDirty) && !(event matches
            SelectToolMessage::SelectionChanged) ==> final(tool_data).selected_layers_count == old(
                tool_data,
            ).selected_layers_count && final(tool_data).selected_layers_changed == old(
                tool_data,
            ).selected_layers_changed,
            transition_post(
                self,
                event,
                *old(tool_data),
                *final(tool_data),
                *document,
                *input,
                old(responses)@,
                final(responses)@,
            ),
    {
        let mouse = input.mouse.position;
        match (self, event) {
            (_, SelectToolMessage::DocumentIsDirty) | (_, SelectToolMessage::SelectionChanged) => {
                document_refresh(tool_data, document, input, responses);
                self
            },
            (_, SelectToolMessage::EditLayer) => {
                match document.click(mouse) {
                    Some(clicked) => {
                        proof {
                            crate::document::lemma_click_live(document.layers@, mouse);
                        }
                        match tool_data.nested_selection_behavior {
                            NestedSelectionBehavior::Shallowest => edit_layer_shallowest_manipulation(
                                document,
                                clicked,
                                responses,
                            ),
                            NestedSelectionBehavior::Deepest => edit_layer_deepest_manipulation(
                                clicked,
                                document,
                                responses,
                            ),
                        }
                    },
                    None => {},
                }
                self
            },
            (SelectToolFsmState::Ready, SelectToolMessage::DragStart { add_to_selection, .. }) => {
                let ghost hov = match old(tool_data).path_outlines.hovered_overlay {
                    Some(h) => seq![
                        crate::overlays::overlay_msg(
                            crate::messages::OverlayOperation::DeleteLayer { path: h },
                        ),
                    ],
                    None => Seq::<Message>::empty(),
                };
                tool_data.path_outlines.clear_hovered(responses);
                tool_data.drag_start = mouse;
                tool_data.drag_current = mouse;
                tool_data.not_duplicated_layers = None;
                responses.add(crate::messages::make_doc_msg(DocumentMessage::StartTransaction));
                let ghost base = old(responses)@ + hov + seq![
                    doc_msg(DocumentMessage::StartTransaction),
                ];
                proof {
                    assert(responses@ =~= base);
                }
                let pivot_hit = tool_data.pivot.is_over(mouse);
                let state: SelectToolFsmState = if pivot_hit {
                    tool_data.snap_manager.start_snap();
                    SelectToolFsmState::DraggingPivot
                } else {
                    let mut bb = tool_data.bounding_box_overlays.take();
                    let edges = match &bb {
                        Some(b) => b.check_selected_edges(mouse),
                        None => None,
                    };
                    let rotating = match &bb {
                        Some(b) => match edges {
                            Some(_) => false,
                            None => b.check_rotate(mouse),
                        },
                        None => false,
                    };
                    let st: SelectToolFsmState = if let Some((top, bottom, left, right)) = edges {
                        let selected = crate::document::copy_ids(&document.selection);
                        let originals = capture_originals(document, &selected);
                        match bb {
                            Some(mut b) => {
                                let se = crate::overlays::SelectedEdges {
                                    top,
                                    bottom,
                                    left,
                                    right,
                                    bounds: b.bounds,
                                };
                                b.opposite_pivot = se.calculate_pivot();
                                b.selected_edges = Some(se);
                                b.center_of_transformation = crate::overlays::pivot_viewport(
                                    b.bounds,
                                    ViewportPosition { x: 50, y: 50 },
                                );
                                b.original_transforms = originals;
                                tool_data.bounding_box_overlays = Some(b);
                            },
                            None => {
                                proof {
                                    assert(false);
                                }
                            },
                        }
                        tool_data.layers_dragging = selected;
                        SelectToolFsmState::ResizingBounds
                    } else if rotating {
                        let selected = crate::document::copy_ids(&document.selection);
                        let originals = capture_originals(document, &selected);
                        match bb {
                            Some(mut b) => {
                                b.center_of_transformation = crate::overlays::pivot_viewport(
                                    b.bounds,
                                    ViewportPosition { x: 50, y: 50 },
                                );
                                b.original_transforms = originals;
                                tool_data.bounding_box_overlays = Some(b);
                            },
                            None => {
                                proof {
                                    assert(false);
                                }
                            },
                        }
                        tool_data.layers_dragging = selected;
                        SelectToolFsmState::RotatingBounds
                    } else {
                        tool_data.bounding_box_overlays = bb;
                        let intersection = document.click(mouse);
                        let inside_selection = match intersection {
                            Some(clicked) => match document.find_live(clicked) {
                                Some(j) => document.first_selected_ancestor(j).is_some(),
                                None => false,
                            },
                            None => false,
                        };
                        if inside_selection && tool_data.nested_selection_behavior
                            == NestedSelectionBehavior::Deepest {
                            tool_data.select_single_layer = intersection;
                            tool_data.layers_dragging = crate::document::copy_ids(
                                &document.selection,
                            );
                            SelectToolFsmState::Dragging
                        } else {
                            tool_data.layers_dragging = crate::document::copy_ids(
                                &document.selection,
                            );
                            let deselected = !input.keyboard.key(add_to_selection)
                                && tool_data.nested_selection_behavior
                                == NestedSelectionBehavior::Deepest;
                            if deselected {
                                responses.add(
                                    crate::messages::make_doc_msg(
                                        DocumentMessage::DeselectAllLayers,
                                    ),
                                );
                                tool_data.layers_dragging = Vec::new();
                            }
                            let ghost des = if deselected {
                                seq![doc_msg(DocumentMessage::DeselectAllLayers)]
                            } else {
                                Seq::<Message>::empty()
                            };
                            proof {
                                assert(responses@ =~= base + des);
                            }
                            match intersection {
                                Some(clicked) => {
                                    tool_data.layer_selected_on_start = Some(clicked);
                                    proof {
                                        crate::document::lemma_click_live(
                                            document.layers@,
                                            mouse,
                                        );
                                    }
                                    match tool_data.nested_selection_behavior {
                                        NestedSelectionBehavior::Shallowest => drag_shallowest_manipulation(
                                            responses,
                                            clicked,
                                            tool_data,
                                            document,
                                        ),
                                        NestedSelectionBehavior::Deepest => drag_deepest_manipulation(
                                            responses,
                                            clicked,
                                            tool_data,
                                        ),
                                    }
                                    SelectToolFsmState::Dragging
                                },
                                None => {
                                    if tool_data.nested_selection_behavior
                                        == NestedSelectionBehavior::Shallowest {
                                        responses.add(
                                            crate::messages::make_doc_msg(
                                                DocumentMessage::DeselectAllLayers,
                                            ),
                                        );
                                        tool_data.layers_dragging = Vec::new();
                                    }
                                    let h = tool_data.overlay_ids.fresh();
                                    responses.add(
                                        crate::messages::make_doc_msg(
                                            DocumentMessage::Overlays(
                                                crate::messages::OverlayOperation::Add {
                                                    path: h,
                                                    kind: crate::messages::OverlayKind::Rect,
                                                },
                                            ),
                                        ),
                                    );
                                    tool_data.drag_box_overlay_layer = Some(h);
                                    proof {
                                        let shallow_des = if tool_data.nested_selection_behavior
                                            == NestedSelectionBehavior::Shallowest {
                                            seq![doc_msg(DocumentMessage::DeselectAllLayers)]
                                        } else {
                                            Seq::<Message>::empty()
                                        };
                                        assert(responses@ =~= base + des + shallow_des + seq![
                                            crate::overlays::overlay_msg(
                                                crate::messages::OverlayOperation::Add {
                                                    path: h,
                                                    kind: crate::messages::OverlayKind::Rect,
                                                },
                                            ),
                                        ]);
                                    }
                                    SelectToolFsmState::DrawingBox
                                },
                            }
                        }
                    };
                    st
                };
                state
            },
            (SelectToolFsmState::Dragging, SelectToolMessage::PointerMove {
                axis_align,
                duplicate,
                ..
            }) => {
                tool_data.has_dragged = true;
                responses.add_front(
                    crate::messages::make_select_msg(SelectToolMessage::DocumentIsDirty),
                );
                let mouse_pos = crate::geometry::axis_align_drag(
                    input.keyboard.key(axis_align),
                    mouse,
                    tool_data.drag_start,
                );
                let mouse_delta = crate::geometry::delta(mouse_pos, tool_data.drag_current);
                let closest = tool_data.snap_manager.snap_layers(mouse_delta);
                let total = ViewportPosition {
                    x: mouse_delta.x + closest.x,
                    y: mouse_delta.y + closest.y,
                };
                let roots = document.shallowest_unique(&tool_data.layers_dragging);
                let ghost q0 = responses@;
                let mut k: usize = 0;
                while k < roots.len()
                    invariant
                        0 <= k <= roots@.len(),
                        responses@ == translate_msgs(roots@.subrange(0, k as int), total, false)
                            .reverse() + q0,
                    decreases roots@.len() - k,
                {
                    responses.add_front(
                        Message::GraphOperation(
                            GraphOperationMessage::TransformChange {
                                layer: roots[k],
                                translation: total,
                                transform_in: TransformIn::Viewport,
                                skip_rerender: false,
                            },
                        ),
                    );
                    proof {
                        let pre = roots@.subrange(0, k as int);
                        let cur = roots@.subrange(0, k + 1);
                        assert(cur.drop_last() =~= pre);
                        assert(translate_msgs(cur, total, false) =~= translate_msgs(
                            pre,
                            total,
                            false,
                        ).push(transform_msg(roots@[k as int], total, false)));
                        assert(translate_msgs(cur, total, false).reverse() =~= seq![
                            transform_msg(roots@[k as int], total, false),
                        ] + translate_msgs(pre, total, false).reverse());
                        assert(responses@ =~= translate_msgs(cur, total, false).reverse() + q0);
                    }
                    k = k + 1;
                }
                proof {
                    assert(roots@.subrange(0, roots@.len() as int) =~= roots@);
                    assert(responses@ =~= translate_msgs(roots@, total, false).reverse() + seq![
                        crate::messages::select_msg(SelectToolMessage::DocumentIsDirty),
                    ] + old(responses)@);
                }
                tool_data.drag_current = crate::geometry::translate(mouse_pos, closest);
                if input.keyboard.key(duplicate) && tool_data.not_duplicated_layers.is_none() {
                    tool_data.start_duplicates(document, responses);
                } else if !input.keyboard.key(duplicate)
                    && tool_data.not_duplicated_layers.is_some() {
                    tool_data.stop_duplicates(document, responses);
                }
                SelectToolFsmState::Dragging
            },
            (SelectToolFsmState::ResizingBounds, SelectToolMessage::PointerMove {
                axis_align,
                center,
                ..
            }) => {
                let bb = tool_data.bounding_box_overlays.take();
                match bb {
                    Some(b) => {
                        match b.selected_edges {
                            Some(edges) => {
                                let snapped = tool_data.snap_manager.snap_position(mouse);
                                let full = crate::geometry::delta(snapped, tool_data.drag_start);
                                let constrained = edges.constrain_delta(full);
                                emit_update_transforms(
                                    document,
                                    &b.original_transforms,
                                    constrained,
                                    responses,
                                );
                            },
                            None => {},
                        }
                        tool_data.bounding_box_overlays = Some(b);
                    },
                    None => {
                        tool_data.bounding_box_overlays = None;
                    },
                }
                SelectToolFsmState::ResizingBounds
            },
            (SelectToolFsmState::RotatingBounds, SelectToolMessage::PointerMove {
                snap_angle,
                ..
            }) => {
                let bb = tool_data.bounding_box_overlays.take();
                match bb {
                    Some(b) => {
                        let aligned = crate::geometry::axis_align_drag(
                            input.keyboard.key(snap_angle),
                            mouse,
                            tool_data.drag_start,
                        );
                        let turn = crate::geometry::delta(aligned, tool_data.drag_start);
                        emit_update_transforms(document, &b.original_transforms, turn, responses);
                        tool_data.bounding_box_overlays = Some(b);
                    },
                    None => {
                        tool_data.bounding_box_overlays = None;
                    },
                }
                SelectToolFsmState::RotatingBounds
            },
            (SelectToolFsmState::DraggingPivot, SelectToolMessage::PointerMove { .. }) => {
                let snapped = tool_data.snap_manager.snap_position(mouse);
                tool_data.pivot.set_viewport_position(snapped);
                SelectToolFsmState::DraggingPivot
            },
            (SelectToolFsmState::DrawingBox, SelectToolMessage::PointerMove { .. }) => {
                tool_data.drag_current = mouse;
                match tool_data.drag_box_overlay_layer {
                    Some(h) => {
                        responses.add_front(
                            crate::messages::make_doc_msg(
                                DocumentMessage::Overlays(
                                    crate::messages::OverlayOperation::SetLayerTransformInViewport {
                                        path: h,
                                        transform: crate::messages::OverlayTransform {
                                            origin: tool_data.drag_start,
                                            extent: mouse,
                                        },
                                    },
                                ),
                            ),
                        );
                    },
                    None => {
                        proof {
                            assert(false);
                        }
                    },
                }
                SelectToolFsmState::DrawingBox
            },
            (SelectToolFsmState::Ready, SelectToolMessage::PointerMove { .. }) => {
                proof {
                    crate::messages::lemma_appends_presentation_refl(responses@);
                }
                let mut cursor = match &tool_data.bounding_box_overlays {
                    Some(b) => match b.check_selected_edges(mouse) {
                        Some((t, bm, l, r)) => {
                            if (t && l) || (bm && r) {
                                MouseCursorIcon::NwseResize
                            } else if (t && r) || (bm && l) {
                                MouseCursorIcon::NeswResize
                            } else if l || r {
                                MouseCursorIcon::EwResize
                            } else {
                                MouseCursorIcon::NsResize
                            }
                        },
                        None => MouseCursorIcon::Default,
                    },
                    None => MouseCursorIcon::Default,
                };
                if tool_data.pivot.is_over(mouse) {
                    cursor = MouseCursorIcon::Move;
                }
                if matches!(cursor, MouseCursorIcon::Default) {
                    let hit = document.click(mouse);
                    let hover = match hit {
                        Some(l) => if document.selection_contains(l) {
                            None
                        } else {
                            Some(l)
                        },
                        None => None,
                    };
                    tool_data.path_outlines.set_hovered(
                        hover,
                        &mut tool_data.overlay_ids,
                        responses,
                    );
                } else {
                    let ghost q1 = responses@;
                    match tool_data.path_outlines.hovered_overlay {
                        Some(h) => {
                            proof {
                                crate::messages::lemma_appends_presentation_push(
                                    old(responses)@,
                                    q1,
                                    crate::overlays::overlay_msg(
                                        crate::messages::OverlayOperation::DeleteLayer { path: h },
                                    ),
                                );
                            }
                        },
                        None => {},
                    }
                    tool_data.path_outlines.clear_hovered(responses);
                }
                let ghost q2 = responses@;
                let changed = !cursor_eq(tool_data.cursor, cursor);
                if changed {
                    let m = Message::Frontend(
                        crate::messages::FrontendMessage::UpdateMouseCursor { cursor },
                    );
                    proof {
                        crate::messages::lemma_appends_presentation_push(
                            old(responses)@,
                            q2,
                            m,
                        );
                    }
                    tool_data.cursor = cursor;
                    responses.add(m);
                }
                proof {
                    let added = responses@.skip(old(responses)@.len() as int);
                    assert(responses@ =~= old(responses)@ + added);
                }
                SelectToolFsmState::Ready
            },
            (SelectToolFsmState::Dragging, SelectToolMessage::Enter) => {
                let response = if crate::geometry::is_below_commit_epsilon(
                    mouse,
                    tool_data.drag_start,
                ) {
                    DocumentMessage::Undo
                } else {
                    DocumentMessage::CommitTransaction
                };
                tool_data.snap_manager.cleanup();
                responses.add_front(crate::messages::make_doc_msg(response));
                SelectToolFsmState::Ready
            },
            (SelectToolFsmState::Dragging, SelectToolMessage::DragStop {
                remove_from_selection,
            }) => {
                let response = if crate::geometry::is_below_commit_epsilon(
                    mouse,
                    tool_data.drag_start,
                ) {
                    DocumentMessage::Undo
                } else {
                    DocumentMessage::CommitTransaction
                };
                responses.add(crate::messages::make_doc_msg(response));
                let ghost closed = responses@;
                proof {
                    assert(closed =~= old(responses)@ + seq![doc_msg(response)]);
                }
                if !tool_data.has_dragged && input.keyboard.key(remove_from_selection)
                    && tool_data.layer_selected_on_start.is_none() {
                    let quad = tool_data.selection_quad();
                    let intersection = document.intersect_quad(&quad);
                    if intersection.len() > 0 {
                        let last_id = intersection[intersection.len() - 1];
                        match document.find_live(last_id) {
                            Some(j) => {
                                let mut replacement: Vec<u64> = Vec::new();
                                let mut k: usize = 0;
                                while k < document.selection.len()
                                    invariant
                                        document.wf(),
                                        j < document.layers@.len(),
                                        0 <= k <= document.selection@.len(),
                                        replacement@ == deselect_descendant_spec(
                                            document.layers@,
                                            document.selection@.subrange(0, k as int),
                                            j as int,
                                        ),
                                    decreases document.selection@.len() - k,
                                {
                                    let id = document.selection[k];
                                    proof {
                                        assert(document.selection@.subrange(0, k + 1).drop_last()
                                            =~= document.selection@.subrange(0, k as int));
                                        assert(document.selection@.subrange(0, k + 1).last()
                                            == document.selection@[k as int]);
                                    }
                                    if !document.chain_contains(j, id) {
                                        replacement.push(id);
                                    }
                                    k = k + 1;
                                }
                                proof {
                                    assert(document.selection@.subrange(
                                        0,
                                        document.selection@.len() as int,
                                    ) =~= document.selection@);
                                }
                                let nodes = crate::document::copy_ids(&replacement);
                                tool_data.layers_dragging = replacement;
                                responses.add(
                                    Message::NodeGraph(
                                        NodeGraphMessage::SelectedNodesSet { nodes },
                                    ),
                                );
                                proof {
                                    assert(responses@.drop_last() =~= closed);
                                }
                            },
                            None => {},
                        }
                    }
                } else {
                    let single = tool_data.select_single_layer.take();
                    match single {
                        Some(layer) => {
                            if !tool_data.has_dragged {
                                let mut nodes: Vec<u64> = Vec::new();
                                nodes.push(layer);
                                responses.add(
                                    Message::NodeGraph(
                                        NodeGraphMessage::SelectedNodesSet { nodes },
                                    ),
                                );
                                proof {
                                    assert(responses@.drop_last() =~= closed);
                                }
                            }
                        },
                        None => {},
                    }
                }
                tool_data.has_dragged = false;
                tool_data.layer_selected_on_start = None;
                tool_data.snap_manager.cleanup();
                tool_data.select_single_layer = None;
                SelectToolFsmState::Ready
            },
            (SelectToolFsmState::ResizingBounds, SelectToolMessage::DragStop { .. })
            | (SelectToolFsmState::ResizingBounds, SelectToolMessage::Enter) => {
                let response = if crate::geometry::is_below_commit_epsilon(
                    mouse,
                    tool_data.drag_start,
                ) {
                    DocumentMessage::Undo
                } else {
                    DocumentMessage::CommitTransaction
                };
                responses.add(crate::messages::make_doc_msg(response));
                proof {
                    assert(responses@ =~= old(responses)@ + seq![doc_msg(response)]);
                }
                tool_data.snap_manager.cleanup();
                let bb = tool_data.bounding_box_overlays.take();
                match bb {
                    Some(mut b) => {
                        b.original_transforms = Vec::new();
                        tool_data.bounding_box_overlays = Some(b);
                    },
                    None => {
                        tool_data.bounding_box_overlays = None;
                    },
                }
                SelectToolFsmState::Ready
            },
            (SelectToolFsmState::RotatingBounds, SelectToolMessage::DragStop { .. })
            | (SelectToolFsmState::RotatingBounds, SelectToolMessage::Enter) => {
                let response = if crate::geometry::is_below_commit_epsilon(
                    mouse,
                    tool_data.drag_start,
                ) {
                    DocumentMessage::Undo
                } else {
                    DocumentMessage::CommitTransaction
                };
                responses.add(crate::messages::make_doc_msg(response));
                proof {
                    assert(responses@ =~= old(responses)@ + seq![doc_msg(response)]);
                }
                tool_data.snap_manager.cleanup();
                let bb = tool_data.bounding_box_overlays.take();
                match bb {
                    Some(mut b) => {
                        b.original_transforms = Vec::new();
                        tool_data.bounding_box_overlays = Some(b);
                    },
                    None => {
                        tool_data.bounding_box_overlays = None;
                    },
                }
                SelectToolFsmState::Ready
            },
            (SelectToolFsmState::DraggingPivot, SelectToolMessage::DragStop { .. })
            | (SelectToolFsmState::DraggingPivot, SelectToolMessage::Enter) => {
                let response = if crate::geometry::is_below_commit_epsilon(
                    mouse,
                    tool_data.drag_start,
                ) {
                    DocumentMessage::Undo
                } else {
                    DocumentMessage::CommitTransaction
                };
                responses.add(crate::messages::make_doc_msg(response));
                proof {
                    assert(responses@ =~= old(responses)@ + seq![doc_msg(response)]);
                }
                tool_data.snap_manager.cleanup();
                SelectToolFsmState::Ready
            },
            (SelectToolFsmState::DrawingBox, SelectToolMessage::DragStop { .. })
            | (SelectToolFsmState::DrawingBox, SelectToolMessage::Enter) => {
                let response = if crate::geometry::is_below_commit_epsilon(
                    mouse,
                    tool_data.drag_start,
                ) {
                    DocumentMessage::Undo
                } else {
                    DocumentMessage::CommitTransaction
                };
                let quad = tool_data.selection_quad();
                let hits = document.intersect_quad(&quad);
                let nodes = crate::document::copy_ids(&hits);
                tool_data.layers_dragging = hits;
                responses.add_front(
                    Message::NodeGraph(NodeGraphMessage::SelectedNodesSet { nodes }),
                );
                responses.add_front(crate::messages::make_doc_msg(response));
                let h = match tool_data.drag_box_overlay_layer.take() {
                    Some(h) => h,
                    None => {
                        proof {
                            assert(false);
                        }
                        vstd::pervasive::unreached()
                    },
                };
                responses.add_front(
                    crate::messages::make_doc_msg(
                        DocumentMessage::Overlays(
                            crate::messages::OverlayOperation::DeleteLayer { path: h },
                        ),
                    ),
                );
                tool_data.snap_manager.cleanup();
                proof {
                    assert(responses@.subrange(3, responses@.len() as int) =~= old(responses)@);
                }
                SelectToolFsmState::Ready
            },
            (SelectToolFsmState::Ready, SelectToolMessage::Enter) => {
                if document.selected_count() == 1 {
                    let only = document.selection[0];
                    match document.layer_kind(only) {
                        Some(crate::document::LayerKind::Text) => {
                            responses.add_front(
                                Message::Tool(
                                    crate::messages::ToolMessage::ActivateTool {
                                        tool_type: crate::messages::ToolType::Text,
                                    },
                                ),
                            );
                            responses.add(
                                Message::Tool(
                                    crate::messages::ToolMessage::Text(
                                        crate::messages::TextToolMessage::EditSelected,
                                    ),
                                ),
                            );
                            proof {
                                assert(responses@ =~= seq![
                                    Message::Tool(
                                        crate::messages::ToolMessage::ActivateTool {
                                            tool_type: crate::messages::ToolType::Text,
                                        },
                                    ),
                                ] + old(responses)@ + seq![
                                    Message::Tool(
                                        crate::messages::ToolMessage::Text(
                                            crate::messages::TextToolMessage::EditSelected,
                                        ),
                                    ),
                                ]);
                            }
                        },
                        _ => {},
                    }
                }
                SelectToolFsmState::Ready
            },
            (_, SelectToolMessage::Abort) => {
                let ghost front = match old(tool_data).drag_box_overlay_layer {
                    Some(h) => seq![
                        crate::overlays::overlay_msg(
                            crate::messages::OverlayOperation::DeleteLayer { path: h },
                        ),
                    ],
                    None => Seq::<Message>::empty(),
                };
                let ghost undo_part = if self != SelectToolFsmState::Ready {
                    seq![doc_msg(DocumentMessage::Undo)]
                } else {
                    Seq::<Message>::empty()
                };
                let ghost reverts = if old(tool_data).bounding_box_overlays is Some {
                    crate::overlays::transform_emits(
                        document.layers@,
                        old(tool_data).bounding_box_overlays->0.original_transforms@,
                        ViewportPosition { x: 0, y: 0 },
                    )
                } else {
                    Seq::<Message>::empty()
                };
                let h_opt = tool_data.drag_box_overlay_layer.take();
                match h_opt {
                    Some(h) => {
                        responses.add_front(
                            crate::messages::make_doc_msg(
                                DocumentMessage::Overlays(
                                    crate::messages::OverlayOperation::DeleteLayer { path: h },
                                ),
                            ),
                        );
                    },
                    None => {},
                }
                proof {
                    assert(responses@ =~= front + old(responses)@);
                }
                if !matches!(self, SelectToolFsmState::Ready) {
                    responses.add(crate::messages::make_doc_msg(DocumentMessage::Undo));
                }
                proof {
                    assert(responses@ =~= front + old(responses)@ + undo_part);
                }
                let bb = tool_data.bounding_box_overlays.take();
                match bb {
                    Some(b) => {
                        emit_update_transforms(
                            document,
                            &b.original_transforms,
                            ViewportPosition { x: 0, y: 0 },
                            responses,
                        );
                        b.delete(responses);
                    },
                    None => {},
                }
                let ghost bbox_del = match old(tool_data).bounding_box_overlays {
                    Some(b) => seq![
                        crate::overlays::overlay_msg(
                            crate::messages::OverlayOperation::DeleteLayer { path: b.overlay },
                        ),
                    ],
                    None => Seq::<Message>::empty(),
                };
                proof {
                    assert(responses@ =~= front + old(responses)@ + undo_part + reverts
                        + bbox_del);
                }
                tool_data.path_outlines.clear_hovered(responses);
                let ghost hov_del = match old(tool_data).path_outlines.hovered_overlay {
                    Some(h) => seq![
                        crate::overlays::overlay_msg(
                            crate::messages::OverlayOperation::DeleteLayer { path: h },
                        ),
                    ],
                    None => Seq::<Message>::empty(),
                };
                proof {
                    assert(responses@ =~= front + old(responses)@ + undo_part + reverts + bbox_del
                        + hov_del);
                }
                tool_data.path_outlines.clear_selected(responses);
                proof {
                    assert(responses@ =~= front + old(responses)@ + undo_part + reverts + bbox_del
                        + hov_del + crate::overlays::delete_overlay_msgs(
                        old(tool_data).path_outlines.selected_overlays@,
                    ));
                }
                tool_data.pivot.clear_overlays(responses);
                tool_data.snap_manager.cleanup();
                proof {
                    let piv_del = match old(tool_data).pivot.overlay {
                        Some(h) => seq![
                            crate::overlays::overlay_msg(
                                crate::messages::OverlayOperation::DeleteLayer { path: h },
                            ),
                        ],
                        None => Seq::<Message>::empty(),
                    };
                    assert(responses@ =~= front + old(responses)@ + undo_part + reverts + bbox_del
                        + hov_del + crate::overlays::delete_overlay_msgs(
                        old(tool_data).path_outlines.selected_overlays@,
                    ) + piv_del);
                }
                SelectToolFsmState::Ready
            },
            (_, SelectToolMessage::SetPivot { position }) => {
                responses.add(crate::messages::make_doc_msg(DocumentMessage::StartTransaction));
                proof {
                    assert(responses@ =~= old(responses)@ + seq![
                        doc_msg(DocumentMessage::StartTransaction),
                    ]);
                }
                let norm = match position.to_normalized() {
                    Some(n) => n,
                    None => {
                        proof {
                            assert(false);
                        }
                        vstd::pervasive::unreached()
                    },
                };
                let bounds = match &tool_data.bounding_box_overlays {
                    Some(b) => Some(b.bounds),
                    None => None,
                };
                tool_data.pivot.set_normalized_position(norm, bounds);
                self
            },
            _ => self,
        }
    }
}

/// Whether two cursor icons are the same.
fn cursor_eq(a: MouseCursorIcon, b: MouseCursorIcon) -> (r: bool)
    ensures
        r == (a == b),
{
    match (a, b) {
        (MouseCursorIcon::Default, MouseCursorIcon::Default) => true,
        (MouseCursorIcon::Move, MouseCursorIcon::Move) => true,
        (MouseCursorIcon::NsResize, MouseCursorIcon::NsResize) => true,
        (MouseCursorIcon::EwResize, MouseCursorIcon::EwResize) => true,
        (MouseCursorIcon::NwseResize, MouseCursorIcon::NwseResize) => true,
        (MouseCursorIcon::NeswResize, MouseCursorIcon::NeswResize) => true,
        (MouseCursorIcon::Grabbing, MouseCursorIcon::Grabbing) => true,
        _ => false,
    }
}

/// The Select tool's options panel state.
pub struct SelectOptions {
    pub nested_selection_behavior: NestedSelectionBehavior,
}

impl Default for SelectOptions {
    /// Options start with the deep depth policy.
    fn default() -> (r: SelectOptions)
        ensures
            r.nested_selection_behavior == NestedSelectionBehavior::Deepest,
    {
        SelectOptions { nested_selection_behavior: NestedSelectionBehavior::Deepest }
    }
}

/// The Select tool: its current state and its private working data.
pub struct SelectTool {
    pub fsm_state: SelectToolFsmState,
    pub tool_data: SelectToolData,
}

impl Default for SelectTool {
    /// A freshly activated Select tool: idle, with fresh working data.
    fn default() -> (r: SelectTool)
        ensures
            r.fsm_state == SelectToolFsmState::Ready,
            r.tool_data.wf(),
            state_inv(r.fsm_state, r.tool_data),
    {
        SelectTool { fsm_state: SelectToolFsmState::Ready, tool_data: SelectToolData::new() }
    }
}

/// The trailing options-layout refresh one routed message produces: one
/// request exactly when the pivot position must be re-read or the selected
/// set changed.
pub open spec fn refresh_tail(td: SelectToolData) -> Seq<Message> {
    if td.pivot.should_refresh || td.selected_layers_changed {
        seq![Message::Frontend(crate::messages::FrontendMessage::UpdateToolOptionsLayout)]
    } else {
        Seq::<Message>::empty()
    }
}

/// The working data after the routing epilogue: the layout-refresh flags
/// are lowered, everything else stands.
pub open spec fn flags_cleared(td: SelectToolData) -> SelectToolData {
    SelectToolData {
        selected_layers_changed: false,
        pivot: crate::overlays::Pivot { should_refresh: false, ..td.pivot },
        ..td
    }
}

/// The hint panel contents the Select tool publishes are sound for the
/// given depth policy: the base groups, with the deepen-selection hints
/// present exactly under the shallow policy.
pub open spec fn hint_data_ok(
    h: crate::messages::HintData,
    behavior: NestedSelectionBehavior,
) -> bool {
    &&& h.groups@.len() == 5
    &&& h.groups@[2].hints@.len() == if behavior == NestedSelectionBehavior::Shallowest {
        4int
    } else {
        2int
    }
    &&& behavior == NestedSelectionBehavior::Shallowest ==> {
        &&& h.groups@[2].hints@[2].keys@ == seq![crate::messages::Key::Accel]
        &&& h.groups@[2].hints@[2].plus
        &&& h.groups@[2].hints@[2].label@ == "Deepest"@
        &&& h.groups@[2].hints@[3].mouse == Some(crate::messages::MouseMotion::LmbDouble)
        &&& h.groups@[2].hints@[3].label@ == "Deepen Selection"@
    }
}

impl SelectTool {
    /// Tool metadata: the icon the toolbar shows.
    pub fn icon_name(&self) -> (r: String)
        ensures
            r@ == "GeneralSelectTool"@,
    {
        "GeneralSelectTool".to_string()
    }

    /// Tool metadata: the toolbar tooltip.
    pub fn tooltip(&self) -> (r: String)
        ensures
            r@ == "Select Tool"@,
    {
        "Select Tool".to_string()
    }

    /// Tool metadata: which tool this is.
    pub fn tool_type(&self) -> (r: crate::messages::ToolType)
        ensures
            r == crate::messages::ToolType::Select,
    {
        crate::messages::ToolType::Select
    }

    /// The pivot widget, showing which named anchor the pivot currently
    /// sits on; activating it emits the matching pivot-reset request.
    pub fn pivot_widget(&self, disabled: bool) -> (r: crate::widgets::WidgetHolder)
        ensures
            r.kind == crate::widgets::WidgetKind::PivotInput,
            r.disabled == disabled,
            r.action == Some(
                crate::messages::select_msg(
                    SelectToolMessage::SetPivot {
                        position: self.tool_data.pivot.to_pivot_position_spec(),
                    },
                ),
            ),
    {
        let position = self.tool_data.pivot.to_pivot_position();
        crate::widgets::pivot_widget(position, disabled)
    }

    /// The whole tool-options row: pivot, align, flip, and — with at least
    /// two layers selected — the boolean operations.
    pub fn layout(&self) -> (r: crate::widgets::Layout)
        ensures
            r.rows@.len() == 1,
            r.rows@[0].widgets@.len() == if self.tool_data.selected_layers_count >= 2 {
                23int
            } else {
                15int
            },
            r.rows@[0].widgets@[0].kind == crate::widgets::WidgetKind::PivotInput,
            r.rows@[0].widgets@[0].disabled == (self.tool_data.selected_layers_count == 0),
            forall|k: int|
                2 <= k < 8 ==> (#[trigger] r.rows@[0].widgets@[k]).kind
                    == crate::widgets::WidgetKind::IconButton && r.rows@[0].widgets@[k].disabled
                    == (self.tool_data.selected_layers_count < 2),
            r.rows@[0].widgets@[9].kind == crate::widgets::WidgetKind::PopoverButton,
            r.rows@[0].widgets@[9].disabled == (self.tool_data.selected_layers_count < 2),
            forall|k: int|
                11 <= k < 13 ==> (#[trigger] r.rows@[0].widgets@[k]).kind
                    == crate::widgets::WidgetKind::IconButton && r.rows@[0].widgets@[k].disabled
                    == (self.tool_data.selected_layers_count == 0),
            r.rows@[0].widgets@[14].kind == crate::widgets::WidgetKind::PopoverButton,
            r.rows@[0].widgets@[14].disabled == (self.tool_data.selected_layers_count == 0),
    {
        let mut widgets: Vec<crate::widgets::WidgetHolder> = Vec::new();
        widgets.push(self.pivot_widget(self.tool_data.selected_layers_count == 0));
        let align_disabled = self.tool_data.selected_layers_count < 2;
        widgets.push(crate::widgets::separator(crate::widgets::SeparatorType::Section));
        let mut aligns = crate::widgets::alignment_widgets(align_disabled);
        widgets.append(&mut aligns);
        widgets.push(crate::widgets::separator(crate::widgets::SeparatorType::Related));
        widgets.push(popover("Align", align_disabled));
        let flip_disabled = self.tool_data.selected_layers_count == 0;
        widgets.push(crate::widgets::separator(crate::widgets::SeparatorType::Section));
        let mut flips = crate::widgets::flip_widgets(flip_disabled);
        widgets.append(&mut flips);
        widgets.push(crate::widgets::separator(crate::widgets::SeparatorType::Related));
        widgets.push(popover("Flip", flip_disabled));
        if self.tool_data.selected_layers_count >= 2 {
            widgets.push(crate::widgets::separator(crate::widgets::SeparatorType::Section));
            let mut booleans = crate::widgets::boolean_widgets();
            widgets.append(&mut booleans);
            widgets.push(crate::widgets::separator(crate::widgets::SeparatorType::Related));
            widgets.push(popover("Boolean", false));
        }
        let mut rows: Vec<crate::widgets::LayoutGroup> = Vec::new();
        rows.push(crate::widgets::LayoutGroup { widgets });
        crate::widgets::Layout { rows }
    }

    /// The message kinds worth listening for in the current state: the
    /// idle state listens for a drag to start, every active state for it
    /// to stop.
    pub fn actions(&self) -> (r: Vec<crate::fsm::SelectToolMessageDiscriminant>)
        ensures
            self.fsm_state == SelectToolFsmState::Ready ==> r@ == seq![
                crate::fsm::SelectToolMessageDiscriminant::DragStart,
                crate::fsm::SelectToolMessageDiscriminant::PointerMove,
                crate::fsm::SelectToolMessageDiscriminant::Abort,
                crate::fsm::SelectToolMessageDiscriminant::EditLayer,
                crate::fsm::SelectToolMessageDiscriminant::Enter,
            ],
            self.fsm_state != SelectToolFsmState::Ready ==> r@ == seq![
                crate::fsm::SelectToolMessageDiscriminant::DragStop,
                crate::fsm::SelectToolMessageDiscriminant::PointerMove,
                crate::fsm::SelectToolMessageDiscriminant::Abort,
                crate::fsm::SelectToolMessageDiscriminant::EditLayer,
                crate::fsm::SelectToolMessageDiscriminant::Enter,
            ],
    {
        let mut out: Vec<crate::fsm::SelectToolMessageDiscriminant> = Vec::new();
        if matches!(self.fsm_state, SelectToolFsmState::Ready) {
            out.push(crate::fsm::SelectToolMessageDiscriminant::DragStart);
        } else {
            out.push(crate::fsm::SelectToolMessageDiscriminant::DragStop);
        }
        out.push(crate::fsm::SelectToolMessageDiscriminant::PointerMove);
        out.push(crate::fsm::SelectToolMessageDiscriminant::Abort);
        out.push(crate::fsm::SelectToolMessageDiscriminant::EditLayer);
        out.push(crate::fsm::SelectToolMessageDiscriminant::Enter);
        proof {
            assert(out@ =~= seq![
                if self.fsm_state == SelectToolFsmState::Ready {
                    crate::fsm::SelectToolMessageDiscriminant::DragStart
                } else {
                    crate::fsm::SelectToolMessageDiscriminant::DragStop
                },
                crate::fsm::SelectToolMessageDiscriminant::PointerMove,
                crate::fsm::SelectToolMessageDiscriminant::Abort,
                crate::fsm::SelectToolMessageDiscriminant::EditLayer,
                crate::fsm::SelectToolMessageDiscriminant::Enter,
            ]);
        }
        out
    }

    /// The fixed table that maps generic editor events to the Select
    /// tool's own message vocabulary.
    pub fn event_to_message_map(&self) -> (r: crate::fsm::EventToMessageMap)
        ensures
            r.document_dirty == Some(
                crate::messages::ToolMessage::Select(SelectToolMessage::DocumentIsDirty),
            ),
            r.selection_changed == Some(
                crate::messages::ToolMessage::Select(SelectToolMessage::SelectionChanged),
            ),
            r.tool_abort == Some(
                crate::messages::ToolMessage::Select(SelectToolMessage::Abort),
            ),
            r.working_color_changed is None,
    {
        crate::fsm::EventToMessageMap {
            document_dirty: Some(
                crate::messages::ToolMessage::Select(SelectToolMessage::DocumentIsDirty),
            ),
            selection_changed: Some(
                crate::messages::ToolMessage::Select(SelectToolMessage::SelectionChanged),
            ),
            tool_abort: Some(crate::messages::ToolMessage::Select(SelectToolMessage::Abort)),
            working_color_changed: None,
        }
    }

    /// Routes one tool message: an options update is intercepted, standard
    /// lifecycle messages are handled for every tool alike, and everything
    /// else runs the state machine; when the pivot or the selected set
    /// changed, the refreshed options layout is published.
    pub fn process_message(
        &mut self,
        message: crate::messages::ToolMessage,
        document: &DocumentModel,
        input: &InputState,
        responses: &mut MessageQueue,
    )
        requires
            old(self).tool_data.wf(),
            state_inv(old(self).fsm_state, old(self).tool_data),
            document.wf(),
            input.wf(),
            message matches crate::messages::ToolMessage::Select(
                SelectToolMessage::SetPivot { position },
            ) ==> position != crate::messages::PivotPosition::Unset,
        ensures
            final(self).tool_data.wf(),
            state_inv(final(self).fsm_state, final(self).tool_data),
            !final(self).tool_data.selected_layers_changed,
            !final(self).tool_data.pivot.should_refresh,
            match message {
                crate::messages::ToolMessage::Select(ev) => match ev {
                    SelectToolMessage::SelectOptions(
                        crate::messages::SelectOptionsUpdate::NestedSelectionBehavior(b),
                    ) => {
                        let mid = SelectToolData {
                            nested_selection_behavior: b,
                            ..old(self).tool_data
                        };
                        &&& final(self).tool_data == flags_cleared(mid)
                        &&& final(self).fsm_state == old(self).fsm_state
                        &&& final(responses)@ == old(responses)@ + seq![
                            Message::Tool(crate::messages::ToolMessage::UpdateHints),
                        ] + refresh_tail(mid)
                    },
                    _ => {
                        &&& final(self).fsm_state == next_state_spec(
                            old(self).fsm_state,
                            ev,
                            old(self).tool_data,
                            *document,
                            *input,
                        )
                        &&& exists|mid_td: SelectToolData, mid_q: Seq<Message>|
                            #[trigger] transition_post(
                                old(self).fsm_state,
                                ev,
                                old(self).tool_data,
                                mid_td,
                                *document,
                                *input,
                                old(responses)@,
                                mid_q,
                            ) && final(self).tool_data == flags_cleared(mid_td)
                                && final(responses)@ == mid_q + refresh_tail(mid_td)
                    },
                },
                crate::messages::ToolMessage::UpdateHints => {
                    &&& final(self).fsm_state == old(self).fsm_state
                    &&& final(self).tool_data == flags_cleared(old(self).tool_data)
                    &&& exists|h: crate::messages::HintData|
                        final(responses)@ == old(responses)@ + seq![
                            Message::Frontend(
                                crate::messages::FrontendMessage::UpdateInputHints {
                                    hint_data: h,
                                },
                            ),
                        ] + refresh_tail(old(self).tool_data) && #[trigger] hint_data_ok(
                            h,
                            old(self).tool_data.nested_selection_behavior,
                        )
                },
                crate::messages::ToolMessage::UpdateCursor => {
                    &&& final(self).fsm_state == old(self).fsm_state
                    &&& final(self).tool_data == flags_cleared(old(self).tool_data)
                    &&& final(responses)@ == old(responses)@ + seq![
                        Message::Frontend(
                            crate::messages::FrontendMessage::UpdateMouseCursor {
                                cursor: MouseCursorIcon::Default,
                            },
                        ),
                    ] + refresh_tail(old(self).tool_data)
                },
                _ => {
                    &&& final(self).fsm_state == old(self).fsm_state
                    &&& final(self).tool_data == flags_cleared(old(self).tool_data)
                    &&& final(responses)@ == old(responses)@ + refresh_tail(old(self).tool_data)
                },
            },
    {
        if let crate::messages::ToolMessage::Select(
            SelectToolMessage::SelectOptions(
                crate::messages::SelectOptionsUpdate::NestedSelectionBehavior(behavior),
            ),
        ) = message {
            self.tool_data.nested_selection_behavior = behavior;
            responses.add(Message::Tool(crate::messages::ToolMessage::UpdateHints));
        }
        let handled = self.fsm_state.standard_tool_messages(
            &message,
            responses,
            &mut self.tool_data,
        );
        if !handled {
            match message {
                crate::messages::ToolMessage::Select(ev) => {
                    match ev {
                        SelectToolMessage::SelectOptions(_) => {},
                        _ => {
                            let next = self.fsm_state.transition(
                                ev,
                                &mut self.tool_data,
                                document,
                                input,
                                responses,
                            );
                            self.fsm_state = next;
                        },
                    }
                },
                _ => {},
            }
        }
        let ghost mid_td = self.tool_data;
        let ghost mid_q = responses@;
        if self.tool_data.pivot.should_refresh_pivot_position()
            || self.tool_data.selected_layers_changed {
            responses.add(
                Message::Frontend(crate::messages::FrontendMessage::UpdateToolOptionsLayout),
            );
            self.tool_data.selected_layers_changed = false;
            self.tool_data.pivot.should_refresh = false;
        }
        proof {
            assert(self.tool_data == flags_cleared(mid_td));
            assert(responses@ =~= mid_q + refresh_tail(mid_td));
        }
    }
}

/// A popover button.
fn popover(tip: &str, disabled: bool) -> (r: crate::widgets::WidgetHolder)
    ensures
        r.kind == crate::widgets::WidgetKind::PopoverButton,
        r.disabled == disabled,
{
    crate::widgets::WidgetHolder {
        kind: crate::widgets::WidgetKind::PopoverButton,
        icon: "".to_string(),
        tooltip: tip.to_string(),
        disabled,
        action: None,
    }
}

impl SelectToolFsmState {
    /// Intercepts the cross-tool lifecycle messages every tool handles
    /// alike — refresh the hint panel, refresh the cursor — before
    /// tool-specific transition logic runs.  Returns whether the message
    /// was consumed here.
    pub fn standard_tool_messages(
        &self,
        message: &crate::messages::ToolMessage,
        responses: &mut MessageQueue,
        tool_data: &mut SelectToolData,
    ) -> (handled: bool)
        ensures
            *final(tool_data) == *old(tool_data),
            handled == (*message matches crate::messages::ToolMessage::UpdateHints || *message
                matches crate::messages::ToolMessage::UpdateCursor),
            *message matches crate::messages::ToolMessage::UpdateHints ==> exists|
                h: crate::messages::HintData,
            |
                final(responses)@ == old(responses)@.push(
                    Message::Frontend(
                        crate::messages::FrontendMessage::UpdateInputHints { hint_data: h },
                    ),
                ) && #[trigger] hint_data_ok(h, old(tool_data).nested_selection_behavior),
            *message matches crate::messages::ToolMessage::UpdateCursor ==> final(responses)@
                == old(responses)@.push(
                Message::Frontend(
                    crate::messages::FrontendMessage::UpdateMouseCursor {
                        cursor: MouseCursorIcon::Default,
                    },
                ),
            ),
            !(*message matches crate::messages::ToolMessage::UpdateHints) && !(*message matches
            crate::messages::ToolMessage::UpdateCursor) ==> final(responses)@ == old(responses)@,
    {
        match message {
            crate::messages::ToolMessage::UpdateHints => {
                let hint_data = select_tool_hint_data(tool_data.nested_selection_behavior);
                responses.add(
                    Message::Frontend(
                        crate::messages::FrontendMessage::UpdateInputHints { hint_data },
                    ),
                );
                self.update_hints(responses);
                true
            },
            crate::messages::ToolMessage::UpdateCursor => {
                self.update_cursor(responses);
                true
            },
            _ => false,
        }
    }

    /// The Select tool adds no state-dependent hints beyond the standard
    /// panel.
    pub fn update_hints(&self, _responses: &mut MessageQueue)
        ensures
            final(_responses)@ == old(_responses)@,
    {
    }

    /// Resets the cursor to the default icon.
    pub fn update_cursor(&self, responses: &mut MessageQueue)
        ensures
            final(responses)@ == old(responses)@.push(
                Message::Frontend(
                    crate::messages::FrontendMessage::UpdateMouseCursor {
                        cursor: MouseCursorIcon::Default,
                    },
                ),
            ),
    {
        responses.add(
            Message::Frontend(
                crate::messages::FrontendMessage::UpdateMouseCursor {
                    cursor: MouseCursorIcon::Default,
                },
            ),
        );
    }
}

/// Builds the Select tool's hint panel: drag, grab/rotate/scale, click
/// selection (with the deepen hints under the shallow policy), area
/// selection, nudging, and the duplicate shortcuts.
pub fn select_tool_hint_data(behavior: NestedSelectionBehavior) -> (h: crate::messages::HintData)
    ensures
        hint_data_ok(h, behavior),
{
    let mut groups: Vec<crate::messages::HintGroup> = Vec::new();
    let mut g1: Vec<crate::messages::HintInfo> = Vec::new();
    g1.push(hint_mouse(crate::messages::MouseMotion::LmbDrag, "Drag Selected"));
    groups.push(crate::messages::HintGroup { hints: g1 });
    let mut g2: Vec<crate::messages::HintInfo> = Vec::new();
    let mut grs_keys: Vec<crate::messages::Key> = Vec::new();
    grs_keys.push(crate::messages::Key::KeyG);
    grs_keys.push(crate::messages::Key::KeyR);
    grs_keys.push(crate::messages::Key::KeyS);
    g2.push(hint_keys(grs_keys, "Grab/Rotate/Scale Selected"));
    groups.push(crate::messages::HintGroup { hints: g2 });
    let mut g3: Vec<crate::messages::HintInfo> = Vec::new();
    g3.push(hint_mouse(crate::messages::MouseMotion::Lmb, "Select Object"));
    let mut shift_keys: Vec<crate::messages::Key> = Vec::new();
    shift_keys.push(crate::messages::Key::Shift);
    g3.push(hint_keys_plus(shift_keys, "Extend Selection"));
    if matches!(behavior, NestedSelectionBehavior::Shallowest) {
        let mut accel_keys: Vec<crate::messages::Key> = Vec::new();
        accel_keys.push(crate::messages::Key::Accel);
        g3.push(hint_keys_plus(accel_keys, "Deepest"));
        g3.push(hint_mouse(crate::messages::MouseMotion::LmbDouble, "Deepen Selection"));
    }
    groups.push(crate::messages::HintGroup { hints: g3 });
    let mut g4: Vec<crate::messages::HintInfo> = Vec::new();
    g4.push(hint_mouse(crate::messages::MouseMotion::LmbDrag, "Select Area"));
    let mut shift_keys2: Vec<crate::messages::Key> = Vec::new();
    shift_keys2.push(crate::messages::Key::Shift);
    g4.push(hint_keys_plus(shift_keys2, "Extend Selection"));
    groups.push(crate::messages::HintGroup { hints: g4 });
    let mut g5: Vec<crate::messages::HintInfo> = Vec::new();
    let mut alt_keys: Vec<crate::messages::Key> = Vec::new();
    alt_keys.push(crate::messages::Key::Alt);
    g5.push(hint_keys(alt_keys, "Move Duplicate"));
    let mut dup_keys: Vec<crate::messages::Key> = Vec::new();
    dup_keys.push(crate::messages::Key::Control);
    dup_keys.push(crate::messages::Key::KeyD);
    g5.push(hint_keys(dup_keys, "Duplicate"));
    groups.push(crate::messages::HintGroup { hints: g5 });
    crate::messages::HintData { groups }
}

/// A mouse-gesture hint.
fn hint_mouse(motion: crate::messages::MouseMotion, label: &str) -> (r: crate::messages::HintInfo)
    ensures
        r.mouse == Some(motion),
        r.label@ == label@,
        !r.plus,
{
    crate::messages::HintInfo {
        keys: Vec::new(),
        mouse: Some(motion),
        label: label.to_string(),
        plus: false,
    }
}

/// A key-chord hint.
fn hint_keys(keys: Vec<crate::messages::Key>, label: &str) -> (r: crate::messages::HintInfo)
    ensures
        r.keys@ == keys@,
        r.label@ == label@,
        !r.plus,
{
    crate::messages::HintInfo { keys, mouse: None, label: label.to_string(), plus: false }
}

/// A key-chord hint that renders appended with a plus sign.
fn hint_keys_plus(keys: Vec<crate::messages::Key>, label: &str) -> (r: crate::messages::HintInfo)
    ensures
        r.keys@ == keys@,
        r.label@ == label@,
        r.plus,
{
    crate::messages::HintInfo { keys, mouse: None, label: label.to_string(), plus: true }
}

/// Refreshes everything a document-dirty or selection-changed notification
/// touches: counts, outlines, hover test, the bounding-box overlay and the
/// pivot.
fn document_refresh(
    tool_data: &mut SelectToolData,
    document: &DocumentModel,
    input: &InputState,
    responses: &mut MessageQueue,
)
    requires
        old(tool_data).wf(),
        document.wf(),
        input.wf(),
    ensures
        final(tool_data).wf(),
        final(tool_data).nested_selection_behavior == old(tool_data).nested_selection_behavior,
        final(tool_data).cursor == old(tool_data).cursor,
        final(tool_data).layer_selected_on_start == old(tool_data).layer_selected_on_start,
        final(tool_data).select_single_layer == old(tool_data).select_single_layer,
        document_refresh_post(
            *old(tool_data),
            *final(tool_data),
            *document,
            old(responses)@,
            final(responses)@,
        ),
{
    let mouse = input.mouse.position;
                let selected_layers_count = document.selected_count();
                tool_data.selected_layers_changed = selected_layers_count
                    != tool_data.selected_layers_count;
                tool_data.selected_layers_count = selected_layers_count;
                let bounds_opt = document.selection_bounding_box();
                proof {
                    crate::messages::lemma_appends_presentation_refl(responses@);
                }
                tool_data.path_outlines.update_selected(
                    selected_layers_count,
                    &mut tool_data.overlay_ids,
                    responses,
                );
                let ghost q1 = responses@;
                let hit = document.click(mouse);
                let hover = match hit {
                    Some(l) => if document.selection_contains(l) {
                        None
                    } else {
                        Some(l)
                    },
                    None => None,
                };
                tool_data.path_outlines.set_hovered(hover, &mut tool_data.overlay_ids, responses);
                proof {
                    crate::messages::lemma_appends_presentation_trans(
                        old(responses)@,
                        q1,
                        responses@,
                    );
                }
                let ghost q2 = responses@;
                let prev = tool_data.bounding_box_overlays.take();
                match (bounds_opt, prev) {
                    (None, Some(b)) => {
                        let m = crate::messages::make_doc_msg(
                            DocumentMessage::Overlays(
                                crate::messages::OverlayOperation::DeleteLayer { path: b.overlay },
                            ),
                        );
                        proof {
                            crate::messages::lemma_appends_presentation_push(
                                old(responses)@,
                                responses@,
                                m,
                            );
                        }
                        b.delete(responses);
                    },
                    (Some(bounds), prev2) => {
                        let mut b = match prev2 {
                            Some(b0) => b0,
                            None => {
                                let ghost q3 = responses@;
                                let b1 = BoundingBoxOverlays::new(
                                    bounds,
                                    &mut tool_data.overlay_ids,
                                    responses,
                                );
                                proof {
                                    crate::messages::lemma_appends_presentation_push(
                                        old(responses)@,
                                        q3,
                                        responses@.last(),
                                    );
                                    assert(responses@ == q3.push(responses@.last()));
                                }
                                b1
                            },
                        };
                        b.bounds = bounds;
                        let ghost q4 = responses@;
                        b.transform(responses);
                        proof {
                            crate::messages::lemma_appends_presentation_push(
                                old(responses)@,
                                q4,
                                responses@.last(),
                            );
                            assert(responses@ == q4.push(responses@.last()));
                        }
                        tool_data.bounding_box_overlays = Some(b);
                    },
                    (None, None) => {},
                }
                let ghost q5 = responses@;
                tool_data.pivot.update_pivot(bounds_opt, &mut tool_data.overlay_ids, responses);
                proof {
                    crate::messages::lemma_appends_presentation_trans(
                        old(responses)@,
                        q5,
                        responses@,
                    );
                    let added = responses@.skip(old(responses)@.len() as int);
                    assert(responses@ =~= old(responses)@ + added);
                }
                }

/// How many transaction-boundary commands a message sequence carries.
pub open spec fn boundary_count(s: Seq<Message>) -> int
    decreases s.len(),
{
    if s.len() == 0 {
        0
    } else {
        boundary_count(s.drop_last()) + if crate::dispatcher::transaction_boundary_msg(s.last()) {
            1int
        } else {
            0
        }
    }
}

/// Boundary counting distributes over concatenation.
pub proof fn lemma_boundary_count_concat(a: Seq<Message>, b: Seq<Message>)
    ensures
        boundary_count(a + b) == boundary_count(a) + boundary_count(b),
    decreases b.len(),
{
    if b.len() == 0 {
        assert(a + b =~= a);
    } else {
        lemma_boundary_count_concat(a, b.drop_last());
        assert((a + b).drop_last() =~= a + b.drop_last());
        assert((a + b).last() == b.last());
    }
}

/// One message counts one or zero by whether it is a boundary command.
pub proof fn lemma_boundary_count_single(m: Message)
    ensures
        boundary_count(seq![m]) == if crate::dispatcher::transaction_boundary_msg(m) {
            1int
        } else {
            0
        },
{
    let s = seq![m];
    assert(s.drop_last() =~= Seq::<Message>::empty());
    assert(boundary_count(Seq::<Message>::empty()) == 0);
    assert(s.last() == m);
    assert(boundary_count(s) == boundary_count(s.drop_last()) + if crate::dispatcher::transaction_boundary_msg(m) {
        1int
    } else {
        0
    });
}

/// Law: ending a drag-like gesture — DragStop or Enter in any active
/// state — closes exactly one transaction: the messages it emits carry
/// exactly one transaction-boundary command, and that command is the undo
/// when the net pointer displacement from the drag start is below the
/// commit epsilon, the commit otherwise.  So a motionless gesture leaves
/// the document as it stood when the gesture began, and a real one keeps
/// its edits with no intermediate state observable after the stop.
pub proof fn law_gesture_end_decides_by_epsilon(
    state: SelectToolFsmState,
    event: SelectToolMessage,
    pre: SelectToolData,
    post: SelectToolData,
    doc: DocumentModel,
    input: InputState,
    preq: Seq<Message>,
    postq: Seq<Message>,
)
    requires
        transition_post(state, event, pre, post, doc, input, preq, postq),
        state != SelectToolFsmState::Ready,
        event matches SelectToolMessage::DragStop { .. } || event == SelectToolMessage::Enter,
    ensures
        boundary_count(postq) == boundary_count(preq) + 1,
        postq.contains(
            doc_msg(
                if below_commit_epsilon(input.mouse.position, pre.drag_start) {
                    DocumentMessage::Undo
                } else {
                    DocumentMessage::CommitTransaction
                },
            ),
        ),
{
    let resp = if below_commit_epsilon(input.mouse.position, pre.drag_start) {
        DocumentMessage::Undo
    } else {
        DocumentMessage::CommitTransaction
    };
    let one = seq![doc_msg(resp)];
    lemma_boundary_count_single(doc_msg(resp));
    assert(boundary_count(one) == 1);
    match (state, event) {
        (SelectToolFsmState::Dragging, SelectToolMessage::Enter) => {
            assert(postq =~= one + preq);
            lemma_boundary_count_concat(one, preq);
            assert(postq[0] == doc_msg(resp));
        },
        (SelectToolFsmState::Dragging, SelectToolMessage::DragStop { .. }) => {
            let closed = preq + one;
            lemma_boundary_count_concat(preq, one);
            if postq == closed {
                assert(postq[preq.len() as int] == doc_msg(resp));
            } else {
                assert(postq.drop_last() == closed);
                assert(!crate::dispatcher::transaction_boundary_msg(postq.last()));
                assert(postq[preq.len() as int] == doc_msg(resp));
            }
        },
        (SelectToolFsmState::DrawingBox, _) => {
            let head = seq![postq[0], postq[1], postq[2]];
            assert(postq =~= head + preq);
            lemma_boundary_count_concat(head, preq);
            assert(head =~= seq![postq[0]] + seq![postq[1]] + seq![postq[2]]);
            lemma_boundary_count_concat(seq![postq[0]] + seq![postq[1]], seq![postq[2]]);
            lemma_boundary_count_concat(seq![postq[0]], seq![postq[1]]);
            lemma_boundary_count_single(postq[0]);
            lemma_boundary_count_single(postq[1]);
            lemma_boundary_count_single(postq[2]);
            assert(postq[1] == doc_msg(resp));
            assert(!crate::dispatcher::transaction_boundary_msg(postq[0]));
            assert(!crate::dispatcher::transaction_boundary_msg(postq[2]));
            assert(boundary_count(head) == 1);
        },
        _ => {
            assert(postq =~= preq + one);
            lemma_boundary_count_concat(preq, one);
            assert(postq[preq.len() as int] == doc_msg(resp));
        },
    }
}

} // verus!
