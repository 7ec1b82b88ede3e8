//! The tool-options widget row the Select tool publishes: pivot input,
//! align and flip buttons, and the boolean-operation buttons that surface a
//! recognised-but-unimplemented notification.  Widgets are plain data here;
//! a presentation layer renders them.

use vstd::prelude::*;
use crate::messages::{
    AlignAggregate, AlignAxis, DialogMessage, DocumentMessage, FlipAxis, Message, PivotPosition,
};

verus! {

/// How a separator renders.
#[derive(Clone, Copy, Debug, PartialEq, Eq, Structural)]
pub enum SeparatorType {
    Related,
    Section,
}

/// What a widget is.
#[derive(Clone, Copy, Debug, PartialEq, Eq, Structural)]
pub enum WidgetKind {
    PivotInput,
    IconButton,
    Separator(SeparatorType),
    PopoverButton,
}

/// One widget: its kind, captions, availability, and the message its
/// activation emits.
#[derive(Clone, Debug, PartialEq, Eq)]
pub struct WidgetHolder {
    pub kind: WidgetKind,
    pub icon: String,
    pub tooltip: String,
    pub disabled: bool,
    pub action: Option<Message>,
}

/// A row of widgets.
#[derive(Clone, Debug, PartialEq, Eq)]
pub struct LayoutGroup {
    pub widgets: Vec<WidgetHolder>,
}

/// The whole published layout.
#[derive(Clone, Debug, PartialEq, Eq)]
pub struct Layout {
    pub rows: Vec<LayoutGroup>,
}

/// A separator widget.
pub fn separator(kind: SeparatorType) -> (r: WidgetHolder)
    ensures
        r.kind == WidgetKind::Separator(kind),
        !r.disabled,
        r.action is None,
{
    WidgetHolder {
        kind: WidgetKind::Separator(kind),
        icon: "".to_string(),
        tooltip: "".to_string(),
        disabled: false,
        action: None,
    }
}

/// Which axis the align button at position `k` works along.
pub open spec fn align_axis_of(k: int) -> AlignAxis {
    if k < 3 {
        AlignAxis::X
    } else {
        AlignAxis::Y
    }
}

/// Which aggregate the align button at position `k` applies.
pub open spec fn align_aggregate_of(k: int) -> AlignAggregate {
    if k == 0 || k == 3 {
        AlignAggregate::Min
    } else if k == 1 || k == 4 {
        AlignAggregate::Center
    } else {
        AlignAggregate::Max
    }
}

/// The six align buttons: min, centre and max along each axis, one per
/// (axis, aggregate) pair in order, all enabled or disabled together.
pub fn alignment_widgets(disabled: bool) -> (r: Vec<WidgetHolder>)
    ensures
        r@.len() == 6,
        forall|k: int|
            0 <= k < r@.len() ==> (#[trigger] r@[k]).kind == WidgetKind::IconButton && r@[k].disabled
                == disabled,
        forall|k: int| 0 <= k < r@.len() ==> (#[trigger] r@[k]).action == Some(
            crate::messages::doc_msg(
                DocumentMessage::AlignSelectedLayers {
                    axis: align_axis_of(k),
                    aggregate: align_aggregate_of(k),
                },
            ),
        ),
{
    let mut out: Vec<WidgetHolder> = Vec::new();
    out.push(align_button("AlignLeft", "Align Left", AlignAxis::X, AlignAggregate::Min, disabled));
    out.push(
        align_button(
            "AlignHorizontalCenter",
            "Align Horizontal Center",
            AlignAxis::X,
            AlignAggregate::Center,
            disabled,
        ),
    );
    out.push(align_button("AlignRight", "Align Right", AlignAxis::X, AlignAggregate::Max, disabled));
    out.push(align_button("AlignTop", "Align Top", AlignAxis::Y, AlignAggregate::Min, disabled));
    out.push(
        align_button(
            "AlignVerticalCenter",
            "Align Vertical Center",
            AlignAxis::Y,
            AlignAggregate::Center,
            disabled,
        ),
    );
    out.push(
        align_button("AlignBottom", "Align Bottom", AlignAxis::Y, AlignAggregate::Max, disabled),
    );
    out
}

/// One align button.
fn align_button(
    icon: &str,
    tip: &str,
    axis: AlignAxis,
    aggregate: AlignAggregate,
    disabled: bool,
) -> (r: WidgetHolder)
    ensures
        r.kind == WidgetKind::IconButton,
        r.disabled == disabled,
        r.action == Some(
            crate::messages::doc_msg(DocumentMessage::AlignSelectedLayers { axis, aggregate }),
        ),
{
    WidgetHolder {
        kind: WidgetKind::IconButton,
        icon: icon.to_string(),
        tooltip: tip.to_string(),
        disabled,
        action: Some(
            crate::messages::make_doc_msg(
                DocumentMessage::AlignSelectedLayers { axis, aggregate },
            ),
        ),
    }
}

/// The two flip buttons, all enabled or disabled together.
pub fn flip_widgets(disabled: bool) -> (r: Vec<WidgetHolder>)
    ensures
        r@.len() == 2,
        forall|k: int|
            0 <= k < r@.len() ==> (#[trigger] r@[k]).kind == WidgetKind::IconButton && r@[k].disabled
                == disabled,
        r@[0].action == Some(
            crate::messages::doc_msg(DocumentMessage::FlipSelectedLayers { flip_axis: FlipAxis::X }),
        ),
        r@[1].action == Some(
            crate::messages::doc_msg(DocumentMessage::FlipSelectedLayers { flip_axis: FlipAxis::Y }),
        ),
{
    let mut out: Vec<WidgetHolder> = Vec::new();
    out.push(
        WidgetHolder {
            kind: WidgetKind::IconButton,
            icon: "FlipHorizontal".to_string(),
            tooltip: "Flip Horizontal".to_string(),
            disabled,
            action: Some(
                crate::messages::make_doc_msg(
                    DocumentMessage::FlipSelectedLayers { flip_axis: FlipAxis::X },
                ),
            ),
        },
    );
    out.push(
        WidgetHolder {
            kind: WidgetKind::IconButton,
            icon: "FlipVertical".to_string(),
            tooltip: "Flip Vertical".to_string(),
            disabled,
            action: Some(
                crate::messages::make_doc_msg(
                    DocumentMessage::FlipSelectedLayers { flip_axis: FlipAxis::Y },
                ),
            ),
        },
    );
    out
}

/// The five boolean-operation buttons.  The operations are recognised but
/// not yet implemented: each activation surfaces a deferred, non-blocking
/// notification.
pub fn boolean_widgets() -> (r: Vec<WidgetHolder>)
    ensures
        r@.len() == 5,
        forall|k: int|
            0 <= k < r@.len() ==> (#[trigger] r@[k]).kind == WidgetKind::IconButton && r@[k].action
                == Some(
                Message::Dialog(DialogMessage::RequestComingSoonDialog { issue: Some(1091u64) }),
            ),
{
    let mut out: Vec<WidgetHolder> = Vec::new();
    out.push(boolean_button("BooleanUnion", "Boolean Union (coming soon)"));
    out.push(boolean_button("BooleanSubtractFront", "Boolean Subtract Front (coming soon)"));
    out.push(boolean_button("BooleanSubtractBack", "Boolean Subtract Back (coming soon)"));
    out.push(boolean_button("BooleanIntersect", "Boolean Intersect (coming soon)"));
    out.push(boolean_button("BooleanDifference", "Boolean Difference (coming soon)"));
    out
}

/// One boolean-operation button.
fn boolean_button(icon: &str, tip: &str) -> (r: WidgetHolder)
    ensures
        r.kind == WidgetKind::IconButton,
        r.action == Some(
            Message::Dialog(DialogMessage::RequestComingSoonDialog { issue: Some(1091u64) }),
        ),
{
    WidgetHolder {
        kind: WidgetKind::IconButton,
        icon: icon.to_string(),
        tooltip: tip.to_string(),
        disabled: false,
        action: Some(
            Message::Dialog(DialogMessage::RequestComingSoonDialog { issue: Some(1091u64) }),
        ),
    }
}

/// The pivot widget, carrying the pivot's current anchor.
pub fn pivot_widget(position: PivotPosition, disabled: bool) -> (r: WidgetHolder)
    ensures
        r.kind == WidgetKind::PivotInput,
        r.disabled == disabled,
        r.action == Some(
            crate::messages::select_msg(crate::messages::SelectToolMessage::SetPivot { position }),
        ),
{
    WidgetHolder {
        kind: WidgetKind::PivotInput,
        icon: "PivotInput".to_string(),
        tooltip: "Pivot".to_string(),
        disabled,
        action: Some(
            crate::messages::make_select_msg(
                crate::messages::SelectToolMessage::SetPivot { position },
            ),
        ),
    }
}

} // verus!
