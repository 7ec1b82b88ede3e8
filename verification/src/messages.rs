//! The closed, hierarchically nested message taxonomy.
//!
//! Every discrete event or command is a tagged value.  Tool-specific variants
//! nest inside a generic tool message, which nests inside the top-level
//! [`Message`]; document edits travel as [`DocumentMessage`] wrapped in
//! [`PortfolioMessage::Document`].  Messages are values: moved into the
//! queue, consumed exactly once.

use vstd::prelude::*;
use crate::geometry::ViewportPosition;

verus! {

/// A modifier or ordinary key the input mapper can ask about.
#[derive(Clone, Copy, Debug, PartialEq, Eq, Structural)]
pub enum Key {
    Shift,
    Alt,
    Control,
    Command,
    Accel,
    KeyG,
    KeyR,
    KeyS,
    KeyD,
}

/// Which keys are currently held.
#[derive(Clone, Copy, Debug, PartialEq, Eq, Structural)]
pub struct KeyboardState {
    pub shift: bool,
    pub alt: bool,
    pub control: bool,
    pub command: bool,
    pub accel: bool,
    pub key_g: bool,
    pub key_r: bool,
    pub key_s: bool,
    pub key_d: bool,
}

impl KeyboardState {
    /// Whether `k` is held, as a specification-level lookup.
    pub open spec fn key_spec(self, k: Key) -> bool {
        match k {
            Key::Shift => self.shift,
            Key::Alt => self.alt,
            Key::Control => self.control,
            Key::Command => self.command,
            Key::Accel => self.accel,
            Key::KeyG => self.key_g,
            Key::KeyR => self.key_r,
            Key::KeyS => self.key_s,
            Key::KeyD => self.key_d,
        }
    }

    /// Looks up whether `k` is held.
    pub fn key(&self, k: Key) -> (r: bool)
        ensures
            r == self.key_spec(k),
    {
        match k {
            Key::Shift => self.shift,
            Key::Alt => self.alt,
            Key::Control => self.control,
            Key::Command => self.command,
            Key::Accel => self.accel,
            Key::KeyG => self.key_g,
            Key::KeyR => self.key_r,
            Key::KeyS => self.key_s,
            Key::KeyD => self.key_d,
        }
    }

    /// A keyboard with nothing held.
    pub fn released() -> (r: KeyboardState)
        ensures
            forall|k: Key| !r.key_spec(k),
    {
        KeyboardState {
            shift: false,
            alt: false,
            control: false,
            command: false,
            accel: false,
            key_g: false,
            key_r: false,
            key_s: false,
            key_d: false,
        }
    }
}

/// Pointer state.
#[derive(Clone, Copy, Debug, PartialEq, Eq, Structural)]
pub struct MouseState {
    pub position: ViewportPosition,
}

/// The input snapshot a dispatch cycle reads: pointer and keyboard.
#[derive(Clone, Copy, Debug, PartialEq, Eq, Structural)]
pub struct InputState {
    pub mouse: MouseState,
    pub keyboard: KeyboardState,
}

impl InputState {
    /// The pointer must sit inside the bounded viewport.
    pub open spec fn wf(self) -> bool {
        self.mouse.position.in_bounds()
    }
}

/// The cursor icon the frontend is asked to show.
#[derive(Clone, Copy, Debug, PartialEq, Eq, Structural)]
pub enum MouseCursorIcon {
    Default,
    Move,
    NsResize,
    EwResize,
    NwseResize,
    NeswResize,
    Grabbing,
}

/// The tools a capability registry can activate.
#[derive(Clone, Copy, Debug, PartialEq, Eq, Structural)]
pub enum ToolType {
    Select,
    Text,
    Path,
}

/// Depth policy for resolving a click on a nested object.
#[derive(Clone, Copy, Debug, PartialEq, Eq, Structural)]
pub enum NestedSelectionBehavior {
    /// A click selects the precise leaf object directly.
    Deepest,
    /// A click climbs to the first already-selected strict ancestor, so
    /// repeated clicks deepen the selection one level at a time.
    Shallowest,
}

impl Default for NestedSelectionBehavior {
    /// The default policy selects the deepest object.
    fn default() -> (r: NestedSelectionBehavior)
        ensures
            r == NestedSelectionBehavior::Deepest,
    {
        NestedSelectionBehavior::Deepest
    }
}

impl NestedSelectionBehavior {
    /// The user-facing name of the policy.
    pub fn to_text(&self) -> (r: String)
        ensures
            *self == NestedSelectionBehavior::Deepest ==> r@ == "Deep Select"@,
            *self == NestedSelectionBehavior::Shallowest ==> r@ == "Shallow Select"@,
    {
        match self {
            NestedSelectionBehavior::Deepest => "Deep Select".to_string(),
            NestedSelectionBehavior::Shallowest => "Shallow Select".to_string(),
        }
    }
}

/// An update to the Select tool's options panel.
#[derive(Clone, Copy, Debug, PartialEq, Eq, Structural)]
pub enum SelectOptionsUpdate {
    NestedSelectionBehavior(NestedSelectionBehavior),
}

/// A named anchor on the selection bounds that the pivot can be reset to,
/// or no anchor at all.
#[derive(Clone, Copy, Debug, PartialEq, Eq, Structural)]
pub enum PivotPosition {
    Unset,
    TopLeft,
    TopCenter,
    TopRight,
    CenterLeft,
    Center,
    CenterRight,
    BottomLeft,
    BottomCenter,
    BottomRight,
}

impl PivotPosition {
    /// The anchor as a normalised position in percent of the bounds, or
    /// `None` when no anchor is named.
    pub open spec fn to_normalized_spec(self) -> Option<ViewportPosition> {
        match self {
            PivotPosition::Unset => None,
            PivotPosition::TopLeft => Some(ViewportPosition { x: 0, y: 0 }),
            PivotPosition::TopCenter => Some(ViewportPosition { x: 50, y: 0 }),
            PivotPosition::TopRight => Some(ViewportPosition { x: 100, y: 0 }),
            PivotPosition::CenterLeft => Some(ViewportPosition { x: 0, y: 50 }),
            PivotPosition::Center => Some(ViewportPosition { x: 50, y: 50 }),
            PivotPosition::CenterRight => Some(ViewportPosition { x: 100, y: 50 }),
            PivotPosition::BottomLeft => Some(ViewportPosition { x: 0, y: 100 }),
            PivotPosition::BottomCenter => Some(ViewportPosition { x: 50, y: 100 }),
            PivotPosition::BottomRight => Some(ViewportPosition { x: 100, y: 100 }),
        }
    }

    /// Converts the anchor to a normalised percent position.
    pub fn to_normalized(&self) -> (r: Option<ViewportPosition>)
        ensures
            r == self.to_normalized_spec(),
    {
        match self {
            PivotPosition::Unset => None,
            PivotPosition::TopLeft => Some(ViewportPosition { x: 0, y: 0 }),
            PivotPosition::TopCenter => Some(ViewportPosition { x: 50, y: 0 }),
            PivotPosition::TopRight => Some(ViewportPosition { x: 100, y: 0 }),
            PivotPosition::CenterLeft => Some(ViewportPosition { x: 0, y: 50 }),
            PivotPosition::Center => Some(ViewportPosition { x: 50, y: 50 }),
            PivotPosition::CenterRight => Some(ViewportPosition { x: 100, y: 50 }),
            PivotPosition::BottomLeft => Some(ViewportPosition { x: 0, y: 100 }),
            PivotPosition::BottomCenter => Some(ViewportPosition { x: 50, y: 100 }),
            PivotPosition::BottomRight => Some(ViewportPosition { x: 100, y: 100 }),
        }
    }
}

/// The Select tool's own message vocabulary.
#[derive(Clone, Copy, Debug, PartialEq, Eq, Structural)]
pub enum SelectToolMessage {
    /// Standard lifecycle: cancel whatever gesture is in progress.
    Abort,
    /// Standard lifecycle: the document changed and overlays must refresh.
    DocumentIsDirty,
    /// Standard lifecycle: the selected set changed.
    SelectionChanged,
    /// The pointer went down; the keys name the modifiers to consult.
    DragStart { add_to_selection: Key, select_deepest: Key },
    /// The pointer went up.
    DragStop { remove_from_selection: Key },
    /// A generic edit-layer request (double click / enter on a layer).
    EditLayer,
    /// The enter key confirmed the gesture in progress.
    Enter,
    /// The pointer moved; the keys name the modifiers to consult.
    PointerMove { axis_align: Key, snap_angle: Key, center: Key, duplicate: Key },
    /// An options-panel update.
    SelectOptions(SelectOptionsUpdate),
    /// The pivot widget asked for the pivot to move to a named anchor.
    SetPivot { position: PivotPosition },
}

/// Alignment axis for align operations.
#[derive(Clone, Copy, Debug, PartialEq, Eq, Structural)]
pub enum AlignAxis {
    X,
    Y,
}

/// Aggregate used when aligning a set of layers.
#[derive(Clone, Copy, Debug, PartialEq, Eq, Structural)]
pub enum AlignAggregate {
    Min,
    Center,
    Max,
}

/// Axis for flip operations.
#[derive(Clone, Copy, Debug, PartialEq, Eq, Structural)]
pub enum FlipAxis {
    X,
    Y,
}

/// Kind of transient overlay shape.
#[derive(Clone, Copy, Debug, PartialEq, Eq, Structural)]
pub enum OverlayKind {
    Rect,
    Ellipse,
    Outline,
}

/// A transform for an overlay layer: where the rubber-band box (or other
/// overlay) sits, as the two corners it spans.
#[derive(Clone, Copy, Debug, PartialEq, Eq, Structural)]
pub struct OverlayTransform {
    pub origin: ViewportPosition,
    pub extent: ViewportPosition,
}

/// Operations on transient overlay layers, consumed by the renderer.
#[derive(Clone, Copy, Debug, PartialEq, Eq, Structural)]
pub enum OverlayOperation {
    Add { path: u64, kind: OverlayKind },
    SetLayerTransformInViewport { path: u64, transform: OverlayTransform },
    DeleteLayer { path: u64 },
}

/// Document-scoped commands: transaction boundaries, selection resets and
/// overlay pass-through.
#[derive(Clone, Copy, Debug, PartialEq, Eq, Structural)]
pub enum DocumentMessage {
    StartTransaction,
    CommitTransaction,
    Undo,
    DeselectAllLayers,
    AlignSelectedLayers { axis: AlignAxis, aggregate: AlignAggregate },
    FlipSelectedLayers { flip_axis: FlipAxis },
    Overlays(OverlayOperation),
}

/// Space a transform change is expressed in.
#[derive(Clone, Copy, Debug, PartialEq, Eq, Structural)]
pub enum TransformIn {
    Local,
    Viewport,
}

/// Structural edits of the layer graph.
#[derive(Clone, Copy, Debug, PartialEq, Eq, Structural)]
pub enum GraphOperationMessage {
    /// Applies an incremental translation to a layer and its subtree.
    /// `skip_rerender` suppresses the redraw when a compensating transform
    /// will immediately follow.
    TransformChange {
        layer: u64,
        translation: ViewportPosition,
        transform_in: TransformIn,
        skip_rerender: bool,
    },
    /// Removes a layer and its subtree.
    DeleteLayer { id: u64 },
    /// Produces an independent, selectable copy of `source` under the fresh
    /// identity `new_id`, displaced by `offset` from the source's transform.
    /// The copy's exact sub-structure is the document's concern.
    DuplicateLayer { source: u64, new_id: u64, offset: ViewportPosition },
}

/// Node-graph-scoped commands.
#[derive(Clone, Debug, PartialEq, Eq)]
pub enum NodeGraphMessage {
    /// Replaces the selected set wholesale.
    SelectedNodesSet { nodes: Vec<u64> },
}

/// A single input hint shown in the hint panel.
#[derive(Clone, Debug, PartialEq, Eq)]
pub struct HintInfo {
    pub keys: Vec<Key>,
    pub mouse: Option<MouseMotion>,
    pub label: String,
    pub plus: bool,
}

/// Mouse gestures named by hints.
#[derive(Clone, Copy, Debug, PartialEq, Eq, Structural)]
pub enum MouseMotion {
    Lmb,
    LmbDrag,
    LmbDouble,
}

/// A group of hints shown together.
#[derive(Clone, Debug, PartialEq, Eq)]
pub struct HintGroup {
    pub hints: Vec<HintInfo>,
}

/// The whole hint panel contents.
#[derive(Clone, Debug, PartialEq, Eq)]
pub struct HintData {
    pub groups: Vec<HintGroup>,
}

/// Messages addressed to the presentation layer; the core only emits these.
#[derive(Clone, Debug, PartialEq, Eq)]
pub enum FrontendMessage {
    UpdateMouseCursor { cursor: MouseCursorIcon },
    UpdateInputHints { hint_data: HintData },
    /// Asks the presentation layer to re-pull and re-render the active
    /// tool's options layout.
    UpdateToolOptionsLayout,
}

/// Dialog requests, e.g. for recognised but unimplemented actions.
#[derive(Clone, Copy, Debug, PartialEq, Eq, Structural)]
pub enum DialogMessage {
    RequestComingSoonDialog { issue: Option<u64> },
}

/// Text tool commands the Select tool can hand off to.
#[derive(Clone, Copy, Debug, PartialEq, Eq, Structural)]
pub enum TextToolMessage {
    EditSelected,
}

/// The generic tool envelope: tool-scoped messages plus cross-tool
/// lifecycle requests.
#[derive(Clone, Debug, PartialEq, Eq)]
pub enum ToolMessage {
    Select(SelectToolMessage),
    Text(TextToolMessage),
    ActivateTool { tool_type: ToolType },
    UpdateHints,
    UpdateCursor,
}

/// Menu-bar requests.
#[derive(Clone, Copy, Debug, PartialEq, Eq, Structural)]
pub enum MenuBarMessage {
    SendLayout,
}

/// Clipboard a copy or cut writes to.
#[derive(Clone, Copy, Debug, PartialEq, Eq, Structural)]
pub enum Clipboard {
    Internal,
    Device,
}

/// A font face, by family and style.
#[derive(Clone, Debug, PartialEq, Eq)]
pub struct Font {
    pub font_family: String,
    pub font_style: String,
}

/// Portfolio-scoped messages: document lifecycle and resource loading.
/// Pixel sizes and identifiers are plain integers in this model.
#[derive(Clone, Debug, PartialEq, Eq)]
pub enum PortfolioMessage {
    MenuBar(MenuBarMessage),
    Document(DocumentMessage),
    DocumentPassMessage { document_id: u64, message: DocumentMessage },
    AutoSaveActiveDocument,
    AutoSaveDocument { document_id: u64 },
    CloseActiveDocumentWithConfirmation,
    CloseAllDocuments,
    CloseAllDocumentsWithConfirmation,
    CloseDocument { document_id: u64 },
    CloseDocumentWithConfirmation { document_id: u64 },
    Copy { clipboard: Clipboard },
    Cut { clipboard: Clipboard },
    DeleteDocument { document_id: u64 },
    DestroyAllDocuments,
    FontLoaded {
        font_family: String,
        font_style: String,
        preview_url: String,
        data: Vec<u8>,
        is_default: bool,
    },
    GraphViewOverlay { open: bool },
    GraphViewOverlayToggle,
    ImaginateCheckServerStatus,
    ImaginatePollServerStatus,
    ImaginatePreferences,
    ImaginateServerHostname,
    Import,
    LoadDocumentResources { document_id: u64 },
    LoadFont { font: Font, is_default: bool },
    NewDocumentWithName { name: String },
    NextDocument,
    OpenDocument,
    OpenDocumentFile { document_name: String, document_serialized_content: String },
    OpenDocumentFileWithId {
        document_id: u64,
        document_name: String,
        document_is_auto_saved: bool,
        document_is_saved: bool,
        document_serialized_content: String,
    },
    PasteIntoFolder { clipboard: Clipboard, parent: u64, insert_index: i64 },
    PasteSerializedData { data: String },
    PrevDocument,
    SelectDocument { document_id: u64 },
    SetActiveDocument { document_id: u64 },
    SetImageBlobUrl {
        document_id: u64,
        layer_path: Vec<u64>,
        node_id: Option<u64>,
        blob_url: String,
        resolution_x: u64,
        resolution_y: u64,
    },
    SubmitGraphRender { document_id: u64, layer_path: Vec<u64> },
    ToggleRulers,
    UpdateDocumentWidgets,
    UpdateOpenDocumentsList,
}

/// The top-level domain message every handler is keyed on.
#[derive(Clone, Debug, PartialEq, Eq)]
pub enum Message {
    Portfolio(PortfolioMessage),
    Tool(ToolMessage),
    GraphOperation(GraphOperationMessage),
    NodeGraph(NodeGraphMessage),
    Frontend(FrontendMessage),
    Dialog(DialogMessage),
}

/// Shorthand for wrapping a document command into the top-level taxonomy.
pub open spec fn doc_msg(m: DocumentMessage) -> Message {
    Message::Portfolio(PortfolioMessage::Document(m))
}

/// Wraps a document command into the top-level taxonomy.
pub fn make_doc_msg(m: DocumentMessage) -> (r: Message)
    ensures
        r == doc_msg(m),
{
    Message::Portfolio(PortfolioMessage::Document(m))
}

/// Shorthand for wrapping a Select tool message into the top-level taxonomy.
pub open spec fn select_msg(m: SelectToolMessage) -> Message {
    Message::Tool(ToolMessage::Select(m))
}

/// Wraps a Select tool message into the top-level taxonomy.
pub fn make_select_msg(m: SelectToolMessage) -> (r: Message)
    ensures
        r == select_msg(m),
{
    Message::Tool(ToolMessage::Select(m))
}

/// Whether `m` is a presentation-side refresh: an overlay operation or a
/// frontend message, nothing that moves document state.
pub open spec fn is_presentation_msg(m: Message) -> bool {
    match m {
        Message::Portfolio(PortfolioMessage::Document(DocumentMessage::Overlays(_))) => true,
        Message::Frontend(_) => true,
        _ => false,
    }
}

/// All messages of `s` are presentation-side refreshes.
pub open spec fn only_presentation_msgs(s: Seq<Message>) -> bool {
    forall|k: int| 0 <= k < s.len() ==> is_presentation_msg(#[trigger] s[k])
}

/// `newq` is `oldq` with only presentation-side refreshes appended.
pub open spec fn appends_presentation(oldq: Seq<Message>, newq: Seq<Message>) -> bool {
    &&& newq.len() >= oldq.len()
    &&& newq.subrange(0, oldq.len() as int) == oldq
    &&& only_presentation_msgs(newq.skip(oldq.len() as int))
}

/// Appending one more presentation message keeps the relation.
pub proof fn lemma_appends_presentation_push(oldq: Seq<Message>, q: Seq<Message>, m: Message)
    requires
        appends_presentation(oldq, q),
        is_presentation_msg(m),
    ensures
        appends_presentation(oldq, q.push(m)),
{
    let p = q.push(m);
    assert(p.subrange(0, oldq.len() as int) =~= oldq);
    let tail = p.skip(oldq.len() as int);
    assert forall|k: int| 0 <= k < tail.len() implies is_presentation_msg(#[trigger] tail[k]) by {
        if k < tail.len() - 1 {
            assert(tail[k] == q.skip(oldq.len() as int)[k]);
        } else {
            assert(tail[k] == m);
        }
    }
}

/// The relation composes.
pub proof fn lemma_appends_presentation_trans(a: Seq<Message>, b: Seq<Message>, c: Seq<Message>)
    requires
        appends_presentation(a, b),
        appends_presentation(b, c),
    ensures
        appends_presentation(a, c),
{
    assert(c.subrange(0, a.len() as int) =~= a);
    let tail = c.skip(a.len() as int);
    assert forall|k: int| 0 <= k < tail.len() implies is_presentation_msg(#[trigger] tail[k]) by {
        if k < b.len() - a.len() {
            assert(tail[k] == b.skip(a.len() as int)[k]);
        } else {
            assert(tail[k] == c.skip(b.len() as int)[k - (b.len() - a.len())]);
        }
    }
}

/// The relation holds reflexively.
pub proof fn lemma_appends_presentation_refl(q: Seq<Message>)
    ensures
        appends_presentation(q, q),
{
    assert(q.subrange(0, q.len() as int) =~= q);
    assert(q.skip(q.len() as int) =~= Seq::<Message>::empty());
}

} // verus!
