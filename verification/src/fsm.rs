//! The tool abstraction glue: the table that translates generic editor
//! events into a tool's own message vocabulary, and the action-list
//! discriminants a tool publishes so input listeners can be registered and
//! unregistered as its state changes.

use vstd::prelude::*;
use crate::messages::ToolMessage;

verus! {

/// The fixed translation table from generic editor-wide events to one
/// tool's own messages, so a tool's state machine never depends on
/// editor-wide event types directly.
#[derive(Clone, Debug, PartialEq, Eq)]
pub struct EventToMessageMap {
    /// Sent when the document became dirty.
    pub document_dirty: Option<ToolMessage>,
    /// Sent when the selected set changed.
    pub selection_changed: Option<ToolMessage>,
    /// Sent when the tool is being deactivated.
    pub tool_abort: Option<ToolMessage>,
    /// Sent when the working colour changed; unused by the Select tool.
    pub working_color_changed: Option<ToolMessage>,
}

/// The message kinds a tool can declare interest in while in some state.
#[derive(Clone, Copy, Debug, PartialEq, Eq, Structural)]
pub enum SelectToolMessageDiscriminant {
    Abort,
    DocumentIsDirty,
    SelectionChanged,
    DragStart,
    DragStop,
    EditLayer,
    Enter,
    PointerMove,
    SelectOptions,
    SetPivot,
}

} // verus!
