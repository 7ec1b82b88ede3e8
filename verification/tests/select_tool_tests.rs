//! End-to-end exercises of the Select tool state machine through the
//! dispatcher: drag lifecycles, the rubber band, the duplicate-on-drag
//! protocol, selection depth policies, and the no-op totality of the
//! transition table.

use select_fsm::dispatcher::{DrainOutcome, Editor};
use select_fsm::document::{DocumentModel, LayerKind};
use select_fsm::geometry::ViewportPosition;
use select_fsm::messages::{
    Key, KeyboardState, Message, NestedSelectionBehavior, NodeGraphMessage, SelectOptionsUpdate,
    SelectToolMessage, ToolMessage,
};
use select_fsm::select_tool::SelectToolFsmState;
use select_fsm::fsm::SelectToolMessageDiscriminant as D;
use select_fsm::messages::PivotPosition;

fn select_msg(m: SelectToolMessage) -> Message {
    Message::Tool(ToolMessage::Select(m))
}

fn drag_start() -> Message {
    select_msg(SelectToolMessage::DragStart { add_to_selection: Key::Shift, select_deepest: Key::Accel })
}

fn drag_stop() -> Message {
    select_msg(SelectToolMessage::DragStop { remove_from_selection: Key::Control })
}

fn pointer_move() -> Message {
    select_msg(SelectToolMessage::PointerMove {
        axis_align: Key::Shift,
        snap_angle: Key::Control,
        center: Key::Alt,
        duplicate: Key::Alt,
    })
}

fn set_selection(ids: Vec<u64>) -> Message {
    Message::NodeGraph(NodeGraphMessage::SelectedNodesSet { nodes: ids })
}

/// A document with one small layer near the origin region.
fn doc_with_layer() -> (DocumentModel, u64) {
    let mut doc = DocumentModel::new();
    let id = doc
        .add_layer(None, ViewportPosition { x: 100, y: 100 }, 50, 50, LayerKind::Shape)
        .unwrap();
    (doc, id)
}

#[test]
fn empty_click_enters_drawing_box_and_zero_area_stop_selects_tolerance_hits() {
    let mut doc = DocumentModel::new();
    // A tiny layer just outside the click point but inside the tolerance
    // square centred on it.
    let near = doc
        .add_layer(None, ViewportPosition { x: 298, y: 298 }, 1, 1, LayerKind::Shape)
        .unwrap();
    // A far layer that must stay unselected.
    let far = doc
        .add_layer(None, ViewportPosition { x: 900, y: 900 }, 10, 10, LayerKind::Shape)
        .unwrap();
    let mut ed = Editor::new(doc);
    ed.set_pointer(300, 300);
    assert_eq!(ed.dispatch(drag_start()), DrainOutcome::Quiescent);
    assert_eq!(ed.tool.fsm_state, SelectToolFsmState::DrawingBox);
    assert_eq!(ed.dispatch(drag_stop()), DrainOutcome::Quiescent);
    assert_eq!(ed.tool.fsm_state, SelectToolFsmState::Ready);
    assert_eq!(ed.document.selection, vec![near]);
    assert!(!ed.document.selection.contains(&far));
    // The zero-area gesture closed its transaction by undoing it; the
    // selection applied afterwards survives.
    assert!(ed.document.saved.is_none());
    assert!(!ed.document.violation);
}

#[test]
fn shallowest_edit_layer_climbs_exactly_one_level() {
    let mut doc = DocumentModel::new();
    let grandparent = doc
        .add_layer(None, ViewportPosition { x: 0, y: 0 }, 400, 400, LayerKind::Folder)
        .unwrap();
    let parent = doc
        .add_layer(Some(0), ViewportPosition { x: 50, y: 50 }, 200, 200, LayerKind::Folder)
        .unwrap();
    let leaf = doc
        .add_layer(Some(1), ViewportPosition { x: 100, y: 100 }, 50, 50, LayerKind::Shape)
        .unwrap();
    let mut ed = Editor::new(doc);
    // Only the grandparent is selected.
    ed.dispatch(set_selection(vec![grandparent]));
    ed.dispatch(select_msg(SelectToolMessage::SelectOptions(
        SelectOptionsUpdate::NestedSelectionBehavior(NestedSelectionBehavior::Shallowest),
    )));
    // Click the leaf: selection must climb exactly one level below the
    // selected ancestor — to the parent, never jumping to the leaf.
    ed.set_pointer(120, 120);
    ed.dispatch(select_msg(SelectToolMessage::EditLayer));
    assert_eq!(ed.document.selection, vec![parent]);
    assert_ne!(ed.document.selection, vec![leaf]);
}

#[test]
fn drag_below_epsilon_is_undone() {
    let (doc, id) = doc_with_layer();
    let mut ed = Editor::new(doc);
    ed.dispatch(set_selection(vec![id]));
    ed.set_pointer(110, 110);
    ed.dispatch(drag_start());
    assert_eq!(ed.tool.fsm_state, SelectToolFsmState::Dragging);
    ed.set_pointer(120, 120);
    ed.dispatch(pointer_move());
    // The layer moved with the pointer.
    assert_eq!(ed.document.layers[0].position.x, 110);
    // Return the pointer to the drag start and confirm: below the commit
    // epsilon, so the whole gesture is undone.
    ed.set_pointer(110, 110);
    ed.dispatch(pointer_move());
    ed.dispatch(select_msg(SelectToolMessage::Enter));
    assert_eq!(ed.tool.fsm_state, SelectToolFsmState::Ready);
    assert_eq!(ed.document.layers[0].position.x, 100);
    assert_eq!(ed.document.layers[0].position.y, 100);
    assert_eq!(ed.document.selection, vec![id]);
    assert!(ed.document.saved.is_none());
}

#[test]
fn drag_above_epsilon_is_committed() {
    let (doc, id) = doc_with_layer();
    let mut ed = Editor::new(doc);
    ed.dispatch(set_selection(vec![id]));
    ed.set_pointer(110, 110);
    ed.dispatch(drag_start());
    ed.set_pointer(130, 125);
    ed.dispatch(pointer_move());
    ed.dispatch(drag_stop());
    assert_eq!(ed.tool.fsm_state, SelectToolFsmState::Ready);
    assert_eq!(ed.document.layers[0].position.x, 120);
    assert_eq!(ed.document.layers[0].position.y, 115);
    assert!(ed.document.saved.is_none());
    assert!(!ed.document.violation);
}

#[test]
fn motionless_drag_stop_is_undone() {
    let (doc, id) = doc_with_layer();
    let mut ed = Editor::new(doc);
    ed.dispatch(set_selection(vec![id]));
    ed.set_pointer(110, 110);
    ed.dispatch(drag_start());
    assert_eq!(ed.tool.fsm_state, SelectToolFsmState::Dragging);
    // The pointer never moves: the stop is below the commit epsilon, so
    // the gesture is undone and the document stands as before the start.
    ed.dispatch(drag_stop());
    assert_eq!(ed.tool.fsm_state, SelectToolFsmState::Ready);
    assert_eq!(ed.document.layers[0].position.x, 100);
    assert_eq!(ed.document.layers[0].position.y, 100);
    assert_eq!(ed.document.selection, vec![id]);
    assert!(ed.document.saved.is_none());
    assert!(!ed.document.violation);
}

#[test]
fn duplicate_toggle_restores_selection_and_tracks_cursor() {
    let (doc, id) = doc_with_layer();
    let mut ed = Editor::new(doc);
    ed.dispatch(set_selection(vec![id]));
    ed.set_pointer(110, 110);
    ed.dispatch(drag_start());
    ed.set_pointer(120, 120);
    ed.dispatch(pointer_move());
    // Engage the duplicate protocol: the original returns to its pre-drag
    // position and an independent copy tracks the cursor.
    let mut kb = KeyboardState::released();
    kb.alt = true;
    ed.set_keyboard(kb);
    ed.set_pointer(125, 125);
    ed.dispatch(pointer_move());
    assert_eq!(ed.document.layers[0].position.x, 100);
    assert_eq!(ed.document.layers[0].position.y, 100);
    assert_eq!(ed.document.layers.len(), 2);
    assert_eq!(ed.document.layers[1].position.x, 115);
    assert_ne!(ed.document.selection, vec![id]);
    // Disengage: the copy is deleted, the original is reselected and lands
    // exactly where a plain drag to the live cursor would have put it.
    ed.set_keyboard(KeyboardState::released());
    ed.set_pointer(130, 130);
    ed.dispatch(pointer_move());
    assert_eq!(ed.document.selection, vec![id]);
    assert_eq!(ed.document.layers[0].position.x, 120);
    assert_eq!(ed.document.layers[0].position.y, 120);
    assert!(ed.document.layers[1].deleted);
}

#[test]
fn undefined_pair_is_a_complete_no_op() {
    let (doc, id) = doc_with_layer();
    let mut ed = Editor::new(doc);
    ed.dispatch(set_selection(vec![id]));
    let layers_before = ed.document.layers.clone();
    let selection_before = ed.document.selection.clone();
    let state_before = ed.tool.fsm_state;
    let frontend_before = ed.frontend.len();
    // A drag stop in the idle state is outside the transition table.
    ed.dispatch(drag_stop());
    assert_eq!(ed.tool.fsm_state, state_before);
    assert_eq!(ed.document.layers, layers_before);
    assert_eq!(ed.document.selection, selection_before);
    assert_eq!(ed.frontend.len(), frontend_before);
}

#[test]
fn abort_releases_gesture_overlays_and_snap_state() {
    let mut doc = DocumentModel::new();
    doc.add_layer(None, ViewportPosition { x: 100, y: 100 }, 50, 50, LayerKind::Shape)
        .unwrap();
    let mut ed = Editor::new(doc);
    ed.set_pointer(500, 500);
    ed.dispatch(drag_start());
    assert_eq!(ed.tool.fsm_state, SelectToolFsmState::DrawingBox);
    assert!(ed.tool.tool_data.drag_box_overlay_layer.is_some());
    ed.dispatch(select_msg(SelectToolMessage::Abort));
    assert_eq!(ed.tool.fsm_state, SelectToolFsmState::Ready);
    assert!(ed.tool.tool_data.drag_box_overlay_layer.is_none());
    assert!(ed.tool.tool_data.bounding_box_overlays.is_none());
    assert!(ed.tool.tool_data.path_outlines.hovered_overlay.is_none());
    assert!(ed.tool.tool_data.path_outlines.selected_overlays.is_empty());
    assert!(ed.tool.tool_data.pivot.overlay.is_none());
    assert!(!ed.tool.tool_data.snap_manager.active);
    // The abort undid the transaction the drag start opened.
    assert!(ed.document.saved.is_none());
    assert!(!ed.document.violation);
}

#[test]
fn selected_count_tracks_selection_on_dirty_notifications() {
    let mut doc = DocumentModel::new();
    let a = doc
        .add_layer(None, ViewportPosition { x: 0, y: 0 }, 10, 10, LayerKind::Shape)
        .unwrap();
    let b = doc
        .add_layer(None, ViewportPosition { x: 50, y: 50 }, 10, 10, LayerKind::Shape)
        .unwrap();
    let mut ed = Editor::new(doc);
    ed.dispatch(set_selection(vec![a, b]));
    ed.dispatch(select_msg(SelectToolMessage::SelectionChanged));
    assert_eq!(ed.tool.tool_data.selected_layers_count, 2);
    ed.dispatch(set_selection(vec![a]));
    ed.dispatch(select_msg(SelectToolMessage::DocumentIsDirty));
    assert_eq!(ed.tool.tool_data.selected_layers_count, 1);
}

#[test]
fn deepest_click_on_new_object_replaces_selection() {
    let mut doc = DocumentModel::new();
    let a = doc
        .add_layer(None, ViewportPosition { x: 0, y: 0 }, 10, 10, LayerKind::Shape)
        .unwrap();
    let b = doc
        .add_layer(None, ViewportPosition { x: 200, y: 200 }, 40, 40, LayerKind::Shape)
        .unwrap();
    let mut ed = Editor::new(doc);
    ed.dispatch(set_selection(vec![a]));
    ed.set_pointer(210, 210);
    ed.dispatch(drag_start());
    assert_eq!(ed.tool.fsm_state, SelectToolFsmState::Dragging);
    assert_eq!(ed.document.selection, vec![b]);
}

#[test]
fn transaction_violation_flag_raises_on_unmatched_commit() {
    let doc = DocumentModel::new();
    let mut doc = doc;
    assert!(!doc.violation);
    doc.commit_transaction();
    assert!(doc.violation);
}

#[test]
fn tool_metadata_and_policy_names() {
    let tool = select_fsm::select_tool::SelectTool::default();
    assert_eq!(tool.icon_name(), "GeneralSelectTool");
    assert_eq!(tool.tooltip(), "Select Tool");
    assert_eq!(NestedSelectionBehavior::Deepest.to_text(), "Deep Select");
    assert_eq!(NestedSelectionBehavior::Shallowest.to_text(), "Shallow Select");
}

#[test]
fn layout_widget_counts_follow_selection_count() {
    let mut tool = select_fsm::select_tool::SelectTool::default();
    let lay = tool.layout();
    assert_eq!(lay.rows.len(), 1);
    assert_eq!(lay.rows[0].widgets.len(), 15);
    assert!(lay.rows[0].widgets[0].disabled);
    tool.tool_data.selected_layers_count = 3;
    let lay2 = tool.layout();
    assert_eq!(lay2.rows[0].widgets.len(), 23);
    assert!(!lay2.rows[0].widgets[0].disabled);
}

#[test]
fn actions_depend_on_state() {
    let mut tool = select_fsm::select_tool::SelectTool::default();
    assert_eq!(
        tool.actions(),
        vec![D::DragStart, D::PointerMove, D::Abort, D::EditLayer, D::Enter]
    );
    tool.fsm_state = SelectToolFsmState::Dragging;
    assert_eq!(
        tool.actions(),
        vec![D::DragStop, D::PointerMove, D::Abort, D::EditLayer, D::Enter]
    );
}

#[test]
fn event_map_names_the_standard_lifecycle() {
    let tool = select_fsm::select_tool::SelectTool::default();
    let map = tool.event_to_message_map();
    assert_eq!(
        map.document_dirty,
        Some(ToolMessage::Select(SelectToolMessage::DocumentIsDirty))
    );
    assert_eq!(
        map.selection_changed,
        Some(ToolMessage::Select(SelectToolMessage::SelectionChanged))
    );
    assert_eq!(map.tool_abort, Some(ToolMessage::Select(SelectToolMessage::Abort)));
    assert_eq!(map.working_color_changed, None);
}

#[test]
fn queue_front_insertion_preempts_back_queued_messages() {
    let mut q = select_fsm::queue::MessageQueue::new();
    q.add(select_msg(SelectToolMessage::Enter));
    q.add_front(select_msg(SelectToolMessage::Abort));
    assert_eq!(q.pop_front(), Some(select_msg(SelectToolMessage::Abort)));
    assert_eq!(q.pop_front(), Some(select_msg(SelectToolMessage::Enter)));
    assert_eq!(q.pop_front(), None);
}

#[test]
fn hint_panel_gains_deepen_hints_under_shallow_policy() {
    let deep = select_fsm::select_tool::select_tool_hint_data(NestedSelectionBehavior::Deepest);
    let shallow =
        select_fsm::select_tool::select_tool_hint_data(NestedSelectionBehavior::Shallowest);
    assert_eq!(deep.groups.len(), 5);
    assert_eq!(shallow.groups.len(), 5);
    assert_eq!(deep.groups[2].hints.len(), 2);
    assert_eq!(shallow.groups[2].hints.len(), 4);
}

#[test]
fn snap_aligns_positions_to_the_grid_only_while_active() {
    let mut snap = select_fsm::overlays::SnapManager::new();
    let p = ViewportPosition { x: 37, y: -21 };
    assert_eq!(snap.snap_position(p), p);
    snap.start_snap();
    let s = snap.snap_position(p);
    assert_eq!(s.x, 32);
    assert_eq!(s.y, -16);
    snap.cleanup();
    assert_eq!(snap.snap_position(p), p);
}

#[test]
fn pivot_widget_shows_the_current_anchor() {
    let mut tool = select_fsm::select_tool::SelectTool::default();
    let w = tool.pivot_widget(false);
    assert_eq!(
        w.action,
        Some(select_msg(SelectToolMessage::SetPivot { position: PivotPosition::Center }))
    );
    tool.tool_data.pivot.normalized = ViewportPosition { x: 100, y: 0 };
    let w2 = tool.pivot_widget(false);
    assert_eq!(
        w2.action,
        Some(select_msg(SelectToolMessage::SetPivot { position: PivotPosition::TopRight }))
    );
    tool.tool_data.pivot.normalized = ViewportPosition { x: 33, y: 60 };
    let w3 = tool.pivot_widget(false);
    assert_eq!(
        w3.action,
        Some(select_msg(SelectToolMessage::SetPivot { position: PivotPosition::Unset }))
    );
}
