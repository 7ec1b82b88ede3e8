//! The transient visual collaborators a tool owns: snap state, the pivot
//! handle, hover/selection outlines, and the bounding-box transformation
//! cage.  Each creation of an overlay layer is matched by a deletion on
//! every exit path; the structs here make that pairing checkable by keeping
//! a handle for exactly the overlays that are outstanding.

use vstd::prelude::*;
use crate::geometry::{COORD_LIMIT, Rect, ViewportPosition, delta_spec, translate_spec};
use crate::messages::{
    DocumentMessage, Message, OverlayKind, OverlayOperation, OverlayTransform,
};
use crate::document::{Layer, live_index_of};

verus! {

/// Grid pitch that snapping aligns to.
pub const SNAP_GRID: i64 = 16;

/// How close the pointer must be to the pivot to grab it.
pub const PIVOT_GRAB_RADIUS: i64 = 8;

/// How close the pointer must be to a bounds edge to grab it.
pub const EDGE_GRAB_TOLERANCE: i64 = 4;

/// How far outside a corner still counts as the rotate trigger.
pub const ROTATE_GRAB_RING: i64 = 12;

/// Allocates identities for transient overlay layers.
pub struct OverlayIdSource {
    pub next: u64,
}

impl OverlayIdSource {
    pub fn new() -> (r: OverlayIdSource)
        ensures
            r.next == 0,
    {
        OverlayIdSource { next: 0 }
    }

    /// Hands out the next identity.  At the far end of the space the
    /// counter wraps; handles are only compared for bookkeeping, never
    /// dereferenced, so a repeat is harmless.
    pub fn fresh(&mut self) -> (r: u64)
        ensures
            r == old(self).next,
            final(self).next == if old(self).next == u64::MAX {
                0u64
            } else {
                (old(self).next + 1) as u64
            },
    {
        let id = self.next;
        self.next = if id == u64::MAX {
            0
        } else {
            id + 1
        };
        id
    }
}

/// Wraps an overlay operation into the top-level taxonomy.
pub open spec fn overlay_msg(op: OverlayOperation) -> Message {
    crate::messages::doc_msg(DocumentMessage::Overlays(op))
}

/// One outline-overlay creation per listed handle, in order.
pub open spec fn add_outline_msgs(handles: Seq<u64>) -> Seq<Message> {
    Seq::new(
        handles.len(),
        |k: int| overlay_msg(OverlayOperation::Add { path: handles[k], kind: OverlayKind::Outline }),
    )
}

/// One overlay deletion per listed handle, in order.
pub open spec fn delete_overlay_msgs(handles: Seq<u64>) -> Seq<Message> {
    Seq::new(
        handles.len(),
        |k: int| overlay_msg(OverlayOperation::DeleteLayer { path: handles[k] }),
    )
}

/// `v` snapped to the grid, truncating toward zero.
pub open spec fn snap_coord_spec(v: i64) -> i64 {
    if v >= 0 {
        (v - (v as int % (SNAP_GRID as int))) as i64
    } else {
        (-((-(v as int)) - ((-(v as int)) % (SNAP_GRID as int)))) as i64
    }
}

/// `p` snapped componentwise to the grid.
pub open spec fn snap_position_spec(p: ViewportPosition) -> ViewportPosition {
    ViewportPosition { x: snap_coord_spec(p.x), y: snap_coord_spec(p.y) }
}

/// Snaps one coordinate to the grid, truncating toward zero.
pub fn snap_coord(v: i64) -> (r: i64)
    requires
        -2 * COORD_LIMIT <= v <= 2 * COORD_LIMIT,
    ensures
        r == snap_coord_spec(v),
        -2 * COORD_LIMIT <= r <= 2 * COORD_LIMIT,
{
    if v >= 0 {
        v - (v % SNAP_GRID)
    } else {
        -((-v) - ((-v) % SNAP_GRID))
    }
}

/// Snap state: active between `start_snap` and `cleanup`, inert otherwise.
/// The real editor snaps to document geometry; this model aligns to a fixed
/// grid, which keeps the interface (position in, adjusted position out) and
/// the lifecycle exact.
pub struct SnapManager {
    pub active: bool,
}

impl SnapManager {
    pub fn new() -> (r: SnapManager)
        ensures
            !r.active,
    {
        SnapManager { active: false }
    }

    /// Begins a snap session.
    pub fn start_snap(&mut self)
        ensures
            final(self).active,
    {
        self.active = true;
    }

    /// The position a pointer position snaps to: grid aligned while a
    /// session is open, untouched otherwise.
    pub open spec fn snap_position_res(self, p: ViewportPosition) -> ViewportPosition {
        if self.active {
            snap_position_spec(p)
        } else {
            p
        }
    }

    /// Snaps a pointer position.
    pub fn snap_position(&self, p: ViewportPosition) -> (r: ViewportPosition)
        requires
            p.in_bounds(),
        ensures
            r == self.snap_position_res(p),
            r.in_bounds(),
    {
        if self.active {
            ViewportPosition { x: snap_coord(p.x), y: snap_coord(p.y) }
        } else {
            p
        }
    }

    /// The adjustment added to a proposed delta so the moved layers land on
    /// the grid: zero when no session is open.
    pub open spec fn snap_layers_res(self, d: ViewportPosition) -> ViewportPosition {
        if self.active {
            ViewportPosition {
                x: (snap_coord_spec(d.x) - d.x) as i64,
                y: (snap_coord_spec(d.y) - d.y) as i64,
            }
        } else {
            ViewportPosition { x: 0, y: 0 }
        }
    }

    /// Computes the closest-move adjustment for a proposed drag delta.
    pub fn snap_layers(&self, d: ViewportPosition) -> (r: ViewportPosition)
        requires
            -2 * COORD_LIMIT <= d.x <= 2 * COORD_LIMIT,
            -2 * COORD_LIMIT <= d.y <= 2 * COORD_LIMIT,
        ensures
            r == self.snap_layers_res(d),
            -SNAP_GRID < r.x < SNAP_GRID,
            -SNAP_GRID < r.y < SNAP_GRID,
    {
        if self.active {
            ViewportPosition { x: snap_coord(d.x) - d.x, y: snap_coord(d.y) - d.y }
        } else {
            ViewportPosition { x: 0, y: 0 }
        }
    }

    /// Ends the snap session and releases its state.
    pub fn cleanup(&mut self)
        ensures
            !final(self).active,
    {
        self.active = false;
    }
}

/// The tool-owned pivot: a normalised anchor within the selection bounds,
/// its current viewport position, and the overlay that shows it.
pub struct Pivot {
    /// Anchor in percent of the selection bounds.
    pub normalized: ViewportPosition,
    /// Where the pivot currently sits on screen, when known.
    pub viewport: Option<ViewportPosition>,
    /// The overlay layer showing the pivot, while one is outstanding.
    pub overlay: Option<u64>,
    /// Raised when the options layout must re-read the pivot position.
    pub should_refresh: bool,
}

impl Pivot {
    /// The anchor stays in percent range and any known viewport position
    /// stays on screen.
    pub open spec fn wf(self) -> bool {
        &&& 0 <= self.normalized.x <= 100
        &&& 0 <= self.normalized.y <= 100
        &&& match self.viewport {
            Some(v) => v.in_bounds_ext(),
            None => true,
        }
    }

    pub fn new() -> (r: Pivot)
        ensures
            r.wf(),
            r.normalized == (ViewportPosition { x: 50, y: 50 }),
            r.viewport is None,
            r.overlay is None,
            !r.should_refresh,
    {
        Pivot {
            normalized: ViewportPosition { x: 50, y: 50 },
            viewport: None,
            overlay: None,
            should_refresh: false,
        }
    }


    /// The named anchor the pivot currently sits on, or no anchor when its
    /// normalised position matches none of the nine.
    pub open spec fn to_pivot_position_spec(self) -> crate::messages::PivotPosition {
        if self.normalized == (ViewportPosition { x: 0, y: 0 }) {
            crate::messages::PivotPosition::TopLeft
        } else if self.normalized == (ViewportPosition { x: 50, y: 0 }) {
            crate::messages::PivotPosition::TopCenter
        } else if self.normalized == (ViewportPosition { x: 100, y: 0 }) {
            crate::messages::PivotPosition::TopRight
        } else if self.normalized == (ViewportPosition { x: 0, y: 50 }) {
            crate::messages::PivotPosition::CenterLeft
        } else if self.normalized == (ViewportPosition { x: 50, y: 50 }) {
            crate::messages::PivotPosition::Center
        } else if self.normalized == (ViewportPosition { x: 100, y: 50 }) {
            crate::messages::PivotPosition::CenterRight
        } else if self.normalized == (ViewportPosition { x: 0, y: 100 }) {
            crate::messages::PivotPosition::BottomLeft
        } else if self.normalized == (ViewportPosition { x: 50, y: 100 }) {
            crate::messages::PivotPosition::BottomCenter
        } else if self.normalized == (ViewportPosition { x: 100, y: 100 }) {
            crate::messages::PivotPosition::BottomRight
        } else {
            crate::messages::PivotPosition::Unset
        }
    }

    /// Reads back which named anchor the pivot sits on.
    pub fn to_pivot_position(&self) -> (r: crate::messages::PivotPosition)
        ensures
            r == self.to_pivot_position_spec(),
    {
        let n = self.normalized;
        if n.x == 0 && n.y == 0 {
            crate::messages::PivotPosition::TopLeft
        } else if n.x == 50 && n.y == 0 {
            crate::messages::PivotPosition::TopCenter
        } else if n.x == 100 && n.y == 0 {
            crate::messages::PivotPosition::TopRight
        } else if n.x == 0 && n.y == 50 {
            crate::messages::PivotPosition::CenterLeft
        } else if n.x == 50 && n.y == 50 {
            crate::messages::PivotPosition::Center
        } else if n.x == 100 && n.y == 50 {
            crate::messages::PivotPosition::CenterRight
        } else if n.x == 0 && n.y == 100 {
            crate::messages::PivotPosition::BottomLeft
        } else if n.x == 50 && n.y == 100 {
            crate::messages::PivotPosition::BottomCenter
        } else if n.x == 100 && n.y == 100 {
            crate::messages::PivotPosition::BottomRight
        } else {
            crate::messages::PivotPosition::Unset
        }
    }

    /// Whether the pointer is over the pivot handle.
    pub open spec fn is_over_spec(self, p: ViewportPosition) -> bool {
        match self.viewport {
            Some(v) => v.x - PIVOT_GRAB_RADIUS <= p.x <= v.x + PIVOT_GRAB_RADIUS && v.y
                - PIVOT_GRAB_RADIUS <= p.y <= v.y + PIVOT_GRAB_RADIUS,
            None => false,
        }
    }

    /// Tests whether the pointer is over the pivot handle.
    pub fn is_over(&self, p: ViewportPosition) -> (r: bool)
        requires
            p.in_bounds(),
            self.wf(),
        ensures
            r == self.is_over_spec(p),
    {
        match self.viewport {
            Some(v) => v.x - PIVOT_GRAB_RADIUS <= p.x && p.x <= v.x + PIVOT_GRAB_RADIUS && v.y
                - PIVOT_GRAB_RADIUS <= p.y && p.y <= v.y + PIVOT_GRAB_RADIUS,
            None => false,
        }
    }

    /// Whether the pivot should refresh its reported position.
    pub fn should_refresh_pivot_position(&self) -> (r: bool)
        ensures
            r == self.should_refresh,
    {
        self.should_refresh
    }

    /// Recomputes the viewport position of the pivot from the selection
    /// bounds, creating or moving its overlay; with no bounds the overlay
    /// is released.
    pub fn update_pivot(
        &mut self,
        bounds: Option<Rect>,
        ids: &mut OverlayIdSource,
        responses: &mut crate::queue::MessageQueue,
    )
        requires
            old(self).wf(),
            match bounds {
                Some(b) => b.wf(),
                None => true,
            },
        ensures
            final(self).wf(),
            match bounds {
                Some(b) => final(self).viewport == Some(pivot_viewport_spec(b, old(self).normalized))
                    && final(self).overlay is Some,
                None => final(self).viewport is None && final(self).overlay is None,
            },
            final(self).normalized == old(self).normalized,
            final(self).should_refresh,
            match (old(self).overlay, bounds) {
                (Some(h), Some(b)) => final(self).overlay == Some(h) && final(responses)@ == old(
                    responses,
                )@.push(
                    overlay_msg(
                        OverlayOperation::SetLayerTransformInViewport {
                            path: h,
                            transform: OverlayTransform {
                                origin: pivot_viewport_spec(b, old(self).normalized),
                                extent: pivot_viewport_spec(b, old(self).normalized),
                            },
                        },
                    ),
                ),
                (None, Some(b)) => final(responses)@ == old(responses)@.push(
                    overlay_msg(
                        OverlayOperation::Add {
                            path: final(self).overlay->0,
                            kind: OverlayKind::Ellipse,
                        },
                    ),
                ).push(
                    overlay_msg(
                        OverlayOperation::SetLayerTransformInViewport {
                            path: final(self).overlay->0,
                            transform: OverlayTransform {
                                origin: pivot_viewport_spec(b, old(self).normalized),
                                extent: pivot_viewport_spec(b, old(self).normalized),
                            },
                        },
                    ),
                ),
                (Some(h), None) => final(responses)@ == old(responses)@.push(
                    overlay_msg(OverlayOperation::DeleteLayer { path: h }),
                ),
                (None, None) => final(responses)@ == old(responses)@,
            },
            crate::messages::appends_presentation(old(responses)@, final(responses)@),
    {
        proof {
            crate::messages::lemma_appends_presentation_refl(responses@);
        }
        match bounds {
            Some(b) => {
                let pos = pivot_viewport(b, self.normalized);
                self.viewport = Some(pos);
                let handle = match self.overlay {
                    Some(h) => h,
                    None => {
                        let h = ids.fresh();
                        let m = crate::messages::make_doc_msg(
                            DocumentMessage::Overlays(
                                OverlayOperation::Add { path: h, kind: OverlayKind::Ellipse },
                            ),
                        );
                        proof {
                            crate::messages::lemma_appends_presentation_push(
                                old(responses)@,
                                responses@,
                                m,
                            );
                        }
                        responses.add(m);
                        h
                    },
                };
                self.overlay = Some(handle);
                let m2 = crate::messages::make_doc_msg(
                    DocumentMessage::Overlays(
                        OverlayOperation::SetLayerTransformInViewport {
                            path: handle,
                            transform: OverlayTransform { origin: pos, extent: pos },
                        },
                    ),
                );
                proof {
                    crate::messages::lemma_appends_presentation_push(
                        old(responses)@,
                        responses@,
                        m2,
                    );
                }
                responses.add(m2);
            },
            None => {
                self.viewport = None;
                if let Some(h) = self.overlay {
                    let m = crate::messages::make_doc_msg(
                        DocumentMessage::Overlays(OverlayOperation::DeleteLayer { path: h }),
                    );
                    proof {
                        crate::messages::lemma_appends_presentation_push(
                            old(responses)@,
                            responses@,
                            m,
                        );
                    }
                    responses.add(m);
                }
                self.overlay = None;
            },
        }
        self.should_refresh = true;
    }

    /// Moves the pivot to an exact viewport position (pivot dragging).
    pub fn set_viewport_position(&mut self, p: ViewportPosition)
        requires
            old(self).wf(),
            p.in_bounds(),
        ensures
            final(self).wf(),
            final(self).viewport == Some(p),
            final(self).normalized == old(self).normalized,
            final(self).overlay == old(self).overlay,
            final(self).should_refresh == old(self).should_refresh,
    {
        self.viewport = Some(p);
    }

    /// Moves the pivot to a normalised anchor within the given bounds.
    pub fn set_normalized_position(&mut self, norm: ViewportPosition, bounds: Option<Rect>)
        requires
            old(self).wf(),
            0 <= norm.x <= 100,
            0 <= norm.y <= 100,
            match bounds {
                Some(b) => b.wf(),
                None => true,
            },
        ensures
            final(self).wf(),
            final(self).normalized == norm,
            match bounds {
                Some(b) => final(self).viewport == Some(pivot_viewport_spec(b, norm)),
                None => final(self).viewport == old(self).viewport,
            },
            final(self).overlay == old(self).overlay,
            final(self).should_refresh,
    {
        self.normalized = norm;
        if let Some(b) = bounds {
            self.viewport = Some(pivot_viewport(b, norm));
        }
        self.should_refresh = true;
    }

    /// Releases the pivot overlay, if one is outstanding.
    pub fn clear_overlays(&mut self, responses: &mut crate::queue::MessageQueue)
        requires
            old(self).wf(),
        ensures
            final(self).wf(),
            final(self).overlay is None,
            final(self).viewport == old(self).viewport,
            final(self).normalized == old(self).normalized,
            final(self).should_refresh == old(self).should_refresh,
            match old(self).overlay {
                Some(h) => final(responses)@ == old(responses)@.push(
                    overlay_msg(OverlayOperation::DeleteLayer { path: h }),
                ),
                None => final(responses)@ == old(responses)@,
            },
    {
        if let Some(h) = self.overlay {
            responses.add(
                crate::messages::make_doc_msg(
                    DocumentMessage::Overlays(OverlayOperation::DeleteLayer { path: h }),
                ),
            );
        }
        self.overlay = None;
    }
}

/// Where a normalised anchor lands inside bounds, in viewport units.
pub open spec fn pivot_viewport_spec(b: Rect, norm: ViewportPosition) -> ViewportPosition {
    ViewportPosition {
        x: (b.min.x + ((b.max.x - b.min.x) * norm.x) / 100) as i64,
        y: (b.min.y + ((b.max.y - b.min.y) * norm.y) / 100) as i64,
    }
}

/// Computes where a normalised anchor lands inside bounds.
pub fn pivot_viewport(b: Rect, norm: ViewportPosition) -> (r: ViewportPosition)
    requires
        b.wf(),
        0 <= norm.x <= 100,
        0 <= norm.y <= 100,
    ensures
        r == pivot_viewport_spec(b, norm),
        r.in_bounds_ext(),
{
    proof {
        assert(0 <= (b.max.x - b.min.x) * norm.x <= 4 * COORD_LIMIT * 100) by (nonlinear_arith)
            requires
                0 <= b.max.x - b.min.x <= 4 * COORD_LIMIT,
                0 <= norm.x <= 100,
        ;
        assert(0 <= (b.max.y - b.min.y) * norm.y <= 4 * COORD_LIMIT * 100) by (nonlinear_arith)
            requires
                0 <= b.max.y - b.min.y <= 4 * COORD_LIMIT,
                0 <= norm.y <= 100,
        ;
    }
    proof {
        assert(((b.max.x - b.min.x) * norm.x) / 100 <= b.max.x - b.min.x) by (nonlinear_arith)
            requires
                0 <= b.max.x - b.min.x,
                0 <= norm.x <= 100,
        ;
        assert(((b.max.y - b.min.y) * norm.y) / 100 <= b.max.y - b.min.y) by (nonlinear_arith)
            requires
                0 <= b.max.y - b.min.y,
                0 <= norm.y <= 100,
        ;
    }
    let sx: i64 = ((b.max.x - b.min.x) * norm.x) / 100;
    let sy: i64 = ((b.max.y - b.min.y) * norm.y) / 100;
    ViewportPosition { x: b.min.x + sx, y: b.min.y + sy }
}

/// Hover and selection outlines: one overlay per outlined layer.
pub struct PathOutline {
    /// The overlay outlining the hovered layer, while one is outstanding.
    pub hovered_overlay: Option<u64>,
    /// The identity the hovered overlay outlines.
    pub hovered_layer: Option<u64>,
    /// Overlays outlining the selected layers.
    pub selected_overlays: Vec<u64>,
}

impl PathOutline {
    pub fn new() -> (r: PathOutline)
        ensures
            r.hovered_overlay is None,
            r.hovered_layer is None,
            r.selected_overlays@.len() == 0,
    {
        PathOutline { hovered_overlay: None, hovered_layer: None, selected_overlays: Vec::new() }
    }

    /// Releases the hover outline, if one is outstanding.
    pub fn clear_hovered(&mut self, responses: &mut crate::queue::MessageQueue)
        ensures
            final(self).hovered_overlay is None,
            final(self).hovered_layer is None,
            final(self).selected_overlays@ == old(self).selected_overlays@,
            match old(self).hovered_overlay {
                Some(h) => final(responses)@ == old(responses)@.push(
                    overlay_msg(OverlayOperation::DeleteLayer { path: h }),
                ),
                None => final(responses)@ == old(responses)@,
            },
    {
        if let Some(h) = self.hovered_overlay {
            responses.add(
                crate::messages::make_doc_msg(
                    DocumentMessage::Overlays(OverlayOperation::DeleteLayer { path: h }),
                ),
            );
        }
        self.hovered_overlay = None;
        self.hovered_layer = None;
    }

    /// Shows the hover outline for the layer under the pointer, or clears
    /// it when nothing unselected is under the pointer.
    pub fn set_hovered(
        &mut self,
        hit: Option<u64>,
        ids: &mut OverlayIdSource,
        responses: &mut crate::queue::MessageQueue,
    )
        ensures
            match hit {
                Some(layer) => final(self).hovered_layer == Some(layer)
                    && final(self).hovered_overlay is Some,
                None => final(self).hovered_layer is None && final(self).hovered_overlay is None,
            },
            final(self).selected_overlays@ == old(self).selected_overlays@,
            match (old(self).hovered_overlay, hit) {
                (None, Some(_)) => final(responses)@ == old(responses)@.push(
                    overlay_msg(
                        OverlayOperation::Add {
                            path: final(self).hovered_overlay->0,
                            kind: OverlayKind::Outline,
                        },
                    ),
                ),
                (Some(h), Some(_)) => final(responses)@ == old(responses)@
                    && final(self).hovered_overlay == Some(h),
                (Some(h), None) => final(responses)@ == old(responses)@.push(
                    overlay_msg(OverlayOperation::DeleteLayer { path: h }),
                ),
                (None, None) => final(responses)@ == old(responses)@,
            },
            crate::messages::appends_presentation(old(responses)@, final(responses)@),
    {
        proof {
            crate::messages::lemma_appends_presentation_refl(responses@);
        }
        match hit {
            Some(layer) => {
                let handle = match self.hovered_overlay {
                    Some(h) => h,
                    None => {
                        let h = ids.fresh();
                        let m = crate::messages::make_doc_msg(
                            DocumentMessage::Overlays(
                                OverlayOperation::Add { path: h, kind: OverlayKind::Outline },
                            ),
                        );
                        proof {
                            crate::messages::lemma_appends_presentation_push(
                                old(responses)@,
                                responses@,
                                m,
                            );
                        }
                        responses.add(m);
                        h
                    },
                };
                self.hovered_overlay = Some(handle);
                self.hovered_layer = Some(layer);
            },
            None => {
                if let Some(h) = self.hovered_overlay {
                    let m = crate::messages::make_doc_msg(
                        DocumentMessage::Overlays(OverlayOperation::DeleteLayer { path: h }),
                    );
                    proof {
                        crate::messages::lemma_appends_presentation_push(
                            old(responses)@,
                            responses@,
                            m,
                        );
                    }
                    responses.add(m);
                }
                self.hovered_overlay = None;
                self.hovered_layer = None;
            },
        }
    }

    /// Rebuilds the selection outlines: one overlay per selected layer.
    pub fn update_selected(
        &mut self,
        selected_count: usize,
        ids: &mut OverlayIdSource,
        responses: &mut crate::queue::MessageQueue,
    )
        ensures
            final(self).selected_overlays@.len() == selected_count,
            final(self).hovered_overlay == old(self).hovered_overlay,
            final(self).hovered_layer == old(self).hovered_layer,
            final(responses)@ == old(responses)@ + delete_overlay_msgs(
                old(self).selected_overlays@,
            ) + add_outline_msgs(final(self).selected_overlays@),
            crate::messages::appends_presentation(old(responses)@, final(responses)@),
    {
        proof {
            crate::messages::lemma_appends_presentation_refl(responses@);
        }
        let mut k: usize = 0;
        while k < self.selected_overlays.len()
            invariant
                0 <= k <= self.selected_overlays@.len(),
                self.selected_overlays@ == old(self).selected_overlays@,
                self.hovered_overlay == old(self).hovered_overlay,
                self.hovered_layer == old(self).hovered_layer,
                responses@ == old(responses)@ + delete_overlay_msgs(
                    self.selected_overlays@.subrange(0, k as int),
                ),
                crate::messages::appends_presentation(old(responses)@, responses@),
            decreases self.selected_overlays@.len() - k,
        {
            let m = crate::messages::make_doc_msg(
                DocumentMessage::Overlays(
                    OverlayOperation::DeleteLayer { path: self.selected_overlays[k] },
                ),
            );
            proof {
                crate::messages::lemma_appends_presentation_push(old(responses)@, responses@, m);
                let pre = self.selected_overlays@.subrange(0, k as int);
                let cur = self.selected_overlays@.subrange(0, k + 1);
                assert(delete_overlay_msgs(cur) =~= delete_overlay_msgs(pre).push(m));
                assert((responses@.push(m)) =~= old(responses)@ + delete_overlay_msgs(cur));
            }
            responses.add(m);
            k = k + 1;
        }
        proof {
            assert(self.selected_overlays@.subrange(0, self.selected_overlays@.len() as int)
                =~= self.selected_overlays@);
        }
        let ghost deletes_done = responses@;
        self.selected_overlays = Vec::new();
        let mut n: usize = 0;
        while n < selected_count
            invariant
                0 <= n <= selected_count,
                self.selected_overlays@.len() == n,
                self.hovered_overlay == old(self).hovered_overlay,
                self.hovered_layer == old(self).hovered_layer,
                responses@ == deletes_done + add_outline_msgs(self.selected_overlays@),
                deletes_done == old(responses)@ + delete_overlay_msgs(
                    old(self).selected_overlays@,
                ),
                crate::messages::appends_presentation(old(responses)@, responses@),
            decreases selected_count - n,
        {
            let h = ids.fresh();
            let m = crate::messages::make_doc_msg(
                DocumentMessage::Overlays(
                    OverlayOperation::Add { path: h, kind: OverlayKind::Outline },
                ),
            );
            proof {
                crate::messages::lemma_appends_presentation_push(old(responses)@, responses@, m);
                assert(add_outline_msgs(self.selected_overlays@.push(h)) =~= add_outline_msgs(
                    self.selected_overlays@,
                ).push(m));
                assert((responses@.push(m)) =~= deletes_done + add_outline_msgs(
                    self.selected_overlays@.push(h),
                ));
            }
            responses.add(m);
            self.selected_overlays.push(h);
            n = n + 1;
        }
    }

    /// Releases every selection outline.
    pub fn clear_selected(&mut self, responses: &mut crate::queue::MessageQueue)
        ensures
            final(self).selected_overlays@.len() == 0,
            final(self).hovered_overlay == old(self).hovered_overlay,
            final(self).hovered_layer == old(self).hovered_layer,
            final(responses)@ == old(responses)@ + delete_overlay_msgs(
                old(self).selected_overlays@,
            ),
            crate::messages::appends_presentation(old(responses)@, final(responses)@),
    {
        proof {
            crate::messages::lemma_appends_presentation_refl(responses@);
        }
        let mut k: usize = 0;
        while k < self.selected_overlays.len()
            invariant
                0 <= k <= self.selected_overlays@.len(),
                self.selected_overlays@ == old(self).selected_overlays@,
                self.hovered_overlay == old(self).hovered_overlay,
                self.hovered_layer == old(self).hovered_layer,
                responses@ == old(responses)@ + delete_overlay_msgs(
                    self.selected_overlays@.subrange(0, k as int),
                ),
                crate::messages::appends_presentation(old(responses)@, responses@),
            decreases self.selected_overlays@.len() - k,
        {
            let m = crate::messages::make_doc_msg(
                DocumentMessage::Overlays(
                    OverlayOperation::DeleteLayer { path: self.selected_overlays[k] },
                ),
            );
            proof {
                crate::messages::lemma_appends_presentation_push(old(responses)@, responses@, m);
                let pre = self.selected_overlays@.subrange(0, k as int);
                let cur = self.selected_overlays@.subrange(0, k + 1);
                assert(delete_overlay_msgs(cur) =~= delete_overlay_msgs(pre).push(m));
                assert((responses@.push(m)) =~= old(responses)@ + delete_overlay_msgs(cur));
            }
            responses.add(m);
            k = k + 1;
        }
        proof {
            assert(self.selected_overlays@.subrange(0, self.selected_overlays@.len() as int)
                =~= self.selected_overlays@);
        }
        self.selected_overlays = Vec::new();
    }
}

/// Which edges of the bounds a resize grabbed, and the bounds themselves.
#[derive(Clone, Copy, Debug, PartialEq, Eq, Structural)]
pub struct SelectedEdges {
    pub top: bool,
    pub bottom: bool,
    pub left: bool,
    pub right: bool,
    pub bounds: Rect,
}

impl SelectedEdges {
    /// The anchor opposite the grabbed edges: the point resizing holds
    /// still.
    pub open spec fn calculate_pivot_spec(self) -> ViewportPosition {
        ViewportPosition {
            x: if self.left {
                self.bounds.max.x
            } else if self.right {
                self.bounds.min.x
            } else {
                self.bounds.min.x
            },
            y: if self.top {
                self.bounds.max.y
            } else if self.bottom {
                self.bounds.min.y
            } else {
                self.bounds.min.y
            },
        }
    }

    /// Computes the anchor opposite the grabbed edges.
    pub fn calculate_pivot(&self) -> (r: ViewportPosition)
        ensures
            r == self.calculate_pivot_spec(),
    {
        let x = if self.left {
            self.bounds.max.x
        } else if self.right {
            self.bounds.min.x
        } else {
            self.bounds.min.x
        };
        let y = if self.top {
            self.bounds.max.y
        } else if self.bottom {
            self.bounds.min.y
        } else {
            self.bounds.min.y
        };
        ViewportPosition { x, y }
    }

    /// A pointer delta constrained to the grabbed edges: the components
    /// along ungrabbed axes are dropped.
    pub open spec fn constrain_delta_spec(self, d: ViewportPosition) -> ViewportPosition {
        ViewportPosition {
            x: if self.left || self.right {
                d.x
            } else {
                0
            },
            y: if self.top || self.bottom {
                d.y
            } else {
                0
            },
        }
    }

    /// Constrains a pointer delta to the grabbed edges.
    pub fn constrain_delta(&self, d: ViewportPosition) -> (r: ViewportPosition)
        ensures
            r == self.constrain_delta_spec(d),
    {
        ViewportPosition {
            x: if self.left || self.right {
                d.x
            } else {
                0
            },
            y: if self.top || self.bottom {
                d.y
            } else {
                0
            },
        }
    }
}

/// The bounding-box overlay around the selection, with the state a resize
/// or rotate gesture captures: the grabbed edges, the original transforms
/// of the dragged layers, and the centre the transform composes around.
pub struct BoundingBoxOverlays {
    /// The overlay layer drawing the box.
    pub overlay: u64,
    pub bounds: Rect,
    pub selected_edges: Option<SelectedEdges>,
    /// Positions of the dragged layers captured when the gesture began;
    /// incremental transforms always compose against these.
    pub original_transforms: Vec<OriginalTransform>,
    pub opposite_pivot: ViewportPosition,
    pub center_of_transformation: ViewportPosition,
}

/// One captured original: a layer and where it stood when the gesture
/// began.
#[derive(Clone, Copy, Debug, PartialEq, Eq, Structural)]
pub struct OriginalTransform {
    pub layer: u64,
    pub position: ViewportPosition,
}

impl BoundingBoxOverlays {
    /// Creates the box overlay.
    pub fn new(
        bounds: Rect,
        ids: &mut OverlayIdSource,
        responses: &mut crate::queue::MessageQueue,
    ) -> (r: BoundingBoxOverlays)
        ensures
            r.bounds == bounds,
            r.selected_edges is None,
            r.original_transforms@.len() == 0,
            final(responses)@ == old(responses)@.push(
                overlay_msg(OverlayOperation::Add { path: r.overlay, kind: OverlayKind::Rect }),
            ),
    {
        let h = ids.fresh();
        responses.add(
            crate::messages::make_doc_msg(
                DocumentMessage::Overlays(
                    OverlayOperation::Add { path: h, kind: OverlayKind::Rect },
                ),
            ),
        );
        BoundingBoxOverlays {
            overlay: h,
            bounds,
            selected_edges: None,
            original_transforms: Vec::new(),
            opposite_pivot: ViewportPosition { x: 0, y: 0 },
            center_of_transformation: ViewportPosition { x: 0, y: 0 },
        }
    }

    /// Redraws the box at its current bounds.
    pub fn transform(&self, responses: &mut crate::queue::MessageQueue)
        ensures
            final(responses)@ == old(responses)@.push(
                overlay_msg(
                    OverlayOperation::SetLayerTransformInViewport {
                        path: self.overlay,
                        transform: OverlayTransform {
                            origin: self.bounds.min,
                            extent: self.bounds.max,
                        },
                    },
                ),
            ),
    {
        responses.add(
            crate::messages::make_doc_msg(
                DocumentMessage::Overlays(
                    OverlayOperation::SetLayerTransformInViewport {
                        path: self.overlay,
                        transform: OverlayTransform {
                            origin: self.bounds.min,
                            extent: self.bounds.max,
                        },
                    },
                ),
            ),
        );
    }

    /// Releases the box overlay.
    pub fn delete(self, responses: &mut crate::queue::MessageQueue)
        ensures
            final(responses)@ == old(responses)@.push(
                overlay_msg(OverlayOperation::DeleteLayer { path: self.overlay }),
            ),
    {
        responses.add(
            crate::messages::make_doc_msg(
                DocumentMessage::Overlays(OverlayOperation::DeleteLayer { path: self.overlay }),
            ),
        );
    }

    /// Which edges of the bounds the pointer grabbed, if it is on the
    /// bounds at all: (top, bottom, left, right).
    pub open spec fn check_selected_edges_spec(self, p: ViewportPosition) -> Option<
        (bool, bool, bool, bool),
    > {
        let b = self.bounds;
        let near_left = b.min.x - EDGE_GRAB_TOLERANCE <= p.x <= b.min.x + EDGE_GRAB_TOLERANCE;
        let near_right = b.max.x - EDGE_GRAB_TOLERANCE <= p.x <= b.max.x + EDGE_GRAB_TOLERANCE;
        let near_top = b.min.y - EDGE_GRAB_TOLERANCE <= p.y <= b.min.y + EDGE_GRAB_TOLERANCE;
        let near_bottom = b.max.y - EDGE_GRAB_TOLERANCE <= p.y <= b.max.y + EDGE_GRAB_TOLERANCE;
        let in_x = b.min.x - EDGE_GRAB_TOLERANCE <= p.x <= b.max.x + EDGE_GRAB_TOLERANCE;
        let in_y = b.min.y - EDGE_GRAB_TOLERANCE <= p.y <= b.max.y + EDGE_GRAB_TOLERANCE;
        if (near_left || near_right || near_top || near_bottom) && in_x && in_y {
            Some((near_top, near_bottom, near_left, near_right))
        } else {
            None
        }
    }

    /// Hit-tests the bounds edges.
    pub fn check_selected_edges(&self, p: ViewportPosition) -> (r: Option<(bool, bool, bool, bool)>)
        requires
            p.in_bounds(),
            self.bounds.wf(),
        ensures
            r == self.check_selected_edges_spec(p),
    {
        let b = self.bounds;
        let near_left = b.min.x - EDGE_GRAB_TOLERANCE <= p.x && p.x <= b.min.x + EDGE_GRAB_TOLERANCE;
        let near_right = b.max.x - EDGE_GRAB_TOLERANCE <= p.x && p.x <= b.max.x
            + EDGE_GRAB_TOLERANCE;
        let near_top = b.min.y - EDGE_GRAB_TOLERANCE <= p.y && p.y <= b.min.y + EDGE_GRAB_TOLERANCE;
        let near_bottom = b.max.y - EDGE_GRAB_TOLERANCE <= p.y && p.y <= b.max.y
            + EDGE_GRAB_TOLERANCE;
        let in_x = b.min.x - EDGE_GRAB_TOLERANCE <= p.x && p.x <= b.max.x + EDGE_GRAB_TOLERANCE;
        let in_y = b.min.y - EDGE_GRAB_TOLERANCE <= p.y && p.y <= b.max.y + EDGE_GRAB_TOLERANCE;
        if (near_left || near_right || near_top || near_bottom) && in_x && in_y {
            Some((near_top, near_bottom, near_left, near_right))
        } else {
            None
        }
    }

    /// Whether the pointer is in the rotate ring: just outside a corner of
    /// the bounds.
    pub open spec fn check_rotate_spec(self, p: ViewportPosition) -> bool {
        let b = self.bounds;
        let near_x = crate::geometry::abs_spec(p.x - b.min.x) <= ROTATE_GRAB_RING
            || crate::geometry::abs_spec(p.x - b.max.x) <= ROTATE_GRAB_RING;
        let near_y = crate::geometry::abs_spec(p.y - b.min.y) <= ROTATE_GRAB_RING
            || crate::geometry::abs_spec(p.y - b.max.y) <= ROTATE_GRAB_RING;
        let outside = !(b.min.x - EDGE_GRAB_TOLERANCE <= p.x <= b.max.x + EDGE_GRAB_TOLERANCE
            && b.min.y - EDGE_GRAB_TOLERANCE <= p.y <= b.max.y + EDGE_GRAB_TOLERANCE);
        near_x && near_y && outside
    }

    /// Hit-tests the rotate ring.
    pub fn check_rotate(&self, p: ViewportPosition) -> (r: bool)
        requires
            p.in_bounds(),
            self.bounds.wf(),
        ensures
            r == self.check_rotate_spec(p),
    {
        let b = self.bounds;
        let dlx: i64 = p.x - b.min.x;
        let drx: i64 = p.x - b.max.x;
        let dty: i64 = p.y - b.min.y;
        let dby: i64 = p.y - b.max.y;
        let near_x = (if dlx < 0 {
            -dlx
        } else {
            dlx
        }) <= ROTATE_GRAB_RING || (if drx < 0 {
            -drx
        } else {
            drx
        }) <= ROTATE_GRAB_RING;
        let near_y = (if dty < 0 {
            -dty
        } else {
            dty
        }) <= ROTATE_GRAB_RING || (if dby < 0 {
            -dby
        } else {
            dby
        }) <= ROTATE_GRAB_RING;
        let outside = !(b.min.x - EDGE_GRAB_TOLERANCE <= p.x && p.x <= b.max.x + EDGE_GRAB_TOLERANCE
            && b.min.y - EDGE_GRAB_TOLERANCE <= p.y && p.y <= b.max.y + EDGE_GRAB_TOLERANCE);
        near_x && near_y && outside
    }
}

/// The messages that re-anchor each captured layer at its original position
/// displaced by `delta`: one incremental transform per live captured layer,
/// stale captures skipped.
pub open spec fn transform_emits(
    layers: Seq<Layer>,
    originals: Seq<OriginalTransform>,
    delta: ViewportPosition,
) -> Seq<Message>
    decreases originals.len(),
{
    if originals.len() == 0 {
        Seq::empty()
    } else {
        transform_emits(layers, originals.drop_last(), delta) + {
            match live_index_of(layers, originals.last().layer) {
                Some(j) => seq![
                    Message::GraphOperation(
                        crate::messages::GraphOperationMessage::TransformChange {
                            layer: originals.last().layer,
                            translation: delta_spec(
                                translate_spec(originals.last().position, delta),
                                layers[j].position,
                            ),
                            transform_in: crate::messages::TransformIn::Viewport,
                            skip_rerender: false,
                        },
                    ),
                ],
                None => Seq::empty(),
            }
        }
    }
}

} // verus!
