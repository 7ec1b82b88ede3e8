//! A plain-value model of the document facade the tools edit through.
//!
//! The real scene graph, its evaluation and its rendering are external
//! collaborators; the core only ever asks narrow questions of them (hit
//! tests, selection, bounding boxes) and issues narrow commands (transaction
//! boundaries, incremental transforms, structural edits).  This module holds
//! exactly that interface over plain values: a forest of layers with bounded
//! integer positions, a selected set, and an open-transaction snapshot.
//!
//! Layers are kept in a `Vec` where a child always follows its parent, so
//! the parent relation is acyclic by construction.  Removing a layer leaves
//! a tombstone (`deleted`), which keeps every index stable.

use vstd::prelude::*;
use crate::geometry::{
    COORD_LIMIT, Rect, ViewportPosition, translate_spec,
};

verus! {

/// Identities are allocated below this bound, which leaves the document
/// always able to allocate more.
pub const ID_LIMIT: u64 = 4611686018427387904;

/// What a layer renders as, as far as the tools care.
#[derive(Clone, Copy, Debug, PartialEq, Eq, Structural)]
pub enum LayerKind {
    Text,
    Shape,
    Folder,
    Image,
}

/// One node of the layer forest.
#[derive(Clone, Copy, Debug, PartialEq, Eq, Structural)]
pub struct Layer {
    /// Stable identity, unique in the document.
    pub id: u64,
    /// Index of the parent layer; always less than this layer's own index.
    pub parent: Option<usize>,
    /// Top-left corner of the layer's bounds in viewport space.
    pub position: ViewportPosition,
    /// Extent of the layer's bounds.
    pub width: i64,
    pub height: i64,
    pub kind: LayerKind,
    /// Tombstone: a removed layer stays in place, marked deleted.
    pub deleted: bool,
}

/// The abstract document state all contracts speak about.
pub struct DocState {
    pub layers: Seq<Layer>,
    pub selection: Seq<u64>,
    pub saved: Option<(Seq<Layer>, Seq<u64>)>,
    pub next_id: u64,
    pub violation: bool,
}

/// The saved copy of the visible state an open transaction can roll back to.
pub struct DocumentSnapshot {
    pub layers: Vec<Layer>,
    pub selection: Vec<u64>,
}

/// The document model: layer forest, selected set, and the open
/// transaction's rollback snapshot.
pub struct DocumentModel {
    pub layers: Vec<Layer>,
    pub selection: Vec<u64>,
    /// `Some` exactly while a transaction is open.
    pub saved: Option<DocumentSnapshot>,
    /// All identities in use are below this.
    pub next_id: u64,
    /// Sticky debug flag: a commit or undo arrived with no open
    /// transaction.  A programmer-error class condition, never fatal.
    pub violation: bool,
}

/// A single layer's well-formedness at index `i`.
pub open spec fn layer_wf(l: Layer, i: int) -> bool {
    &&& (l.parent is Some ==> l.parent->0 < i)
    &&& l.position.in_bounds()
    &&& 0 <= l.width <= COORD_LIMIT
    &&& 0 <= l.height <= COORD_LIMIT
}

/// Well-formedness of a layer forest: ordered parents, bounded geometry,
/// and unique identities.
pub open spec fn layers_wf(layers: Seq<Layer>) -> bool {
    &&& forall|i: int| 0 <= i < layers.len() ==> layer_wf(#[trigger] layers[i], i)
    &&& forall|i: int, j: int|
        0 <= i < layers.len() && 0 <= j < layers.len() && i != j ==> (#[trigger] layers[i]).id != (
        #[trigger] layers[j]).id
}

/// The parent links alone are ordered: every child follows its parent.
/// This is all the chain walks below need to terminate.
pub open spec fn parents_ordered(layers: Seq<Layer>) -> bool {
    forall|k: int|
        0 <= k < layers.len() ==> ((#[trigger] layers[k]).parent is Some ==> layers[k].parent->0
            < k)
}

/// All identities of `layers` lie below `bound`.
pub open spec fn ids_below(layers: Seq<Layer>, bound: u64) -> bool {
    forall|i: int| 0 <= i < layers.len() ==> (#[trigger] layers[i]).id < bound
}

/// A selection is well formed when it lists identities of live layers, each
/// at most once.
pub open spec fn selection_wf(layers: Seq<Layer>, selection: Seq<u64>) -> bool {
    &&& forall|k: int|
        0 <= k < selection.len() ==> live_index_of(layers, #[trigger] selection[k]) is Some
    &&& forall|k: int, l: int|
        0 <= k < selection.len() && 0 <= l < selection.len() && k != l ==> #[trigger] selection[k]
            != #[trigger] selection[l]
}

/// The index of the live layer with identity `id`, if any.
pub open spec fn live_index_of(layers: Seq<Layer>, id: u64) -> Option<int>
    decreases layers.len(),
{
    if layers.len() == 0 {
        None
    } else if !layers.last().deleted && layers.last().id == id {
        Some(layers.len() - 1)
    } else {
        live_index_of(layers.drop_last(), id)
    }
}

/// Whether index `j` lies in the subtree rooted at index `root` (including
/// the root itself), by walking `j`'s parent chain.
pub open spec fn in_subtree(layers: Seq<Layer>, root: int, j: int) -> bool
    decreases j when 0 <= j < layers.len() && parents_ordered(layers)
{
    if j == root {
        true
    } else {
        match layers[j].parent {
            Some(p) => in_subtree(layers, root, p as int),
            None => false,
        }
    }
}

/// Whether some strict ancestor of index `j` has its identity in `ids`.
pub open spec fn chain_has_ancestor_in(layers: Seq<Layer>, ids: Seq<u64>, j: int) -> bool
    decreases j when 0 <= j < layers.len() && parents_ordered(layers)
{
    match layers[j].parent {
        Some(p) => ids.contains(layers[p as int].id) || chain_has_ancestor_in(
            layers,
            ids,
            p as int,
        ),
        None => false,
    }
}

/// The first index on `j`'s ancestor chain (starting at `j` itself) whose
/// identity is in `ids`, if any.
pub open spec fn first_in_chain(layers: Seq<Layer>, ids: Seq<u64>, j: int) -> Option<int>
    decreases j when 0 <= j < layers.len() && parents_ordered(layers)
{
    if ids.contains(layers[j].id) {
        Some(j)
    } else {
        match layers[j].parent {
            Some(p) => first_in_chain(layers, ids, p as int),
            None => None,
        }
    }
}

/// The first index on `j`'s ancestor chain (starting at `j` itself) whose
/// parent's identity is in `ids`, if any.
pub open spec fn first_child_of_chain(layers: Seq<Layer>, ids: Seq<u64>, j: int) -> Option<int>
    decreases j when 0 <= j < layers.len() && parents_ordered(layers)
{
    match layers[j].parent {
        Some(p) => if ids.contains(layers[p as int].id) {
            Some(j)
        } else {
            first_child_of_chain(layers, ids, p as int)
        },
        None => None,
    }
}

/// The topmost ancestor of index `j`: the one with no parent.
pub open spec fn top_ancestor_of(layers: Seq<Layer>, j: int) -> int
    decreases j when 0 <= j < layers.len() && parents_ordered(layers)
{
    match layers[j].parent {
        Some(p) => top_ancestor_of(layers, p as int),
        None => j,
    }
}

/// The bounds of a layer as an axis-aligned box.
pub open spec fn layer_bounds_spec(l: Layer) -> Rect {
    Rect {
        min: l.position,
        max: ViewportPosition {
            x: (l.position.x + l.width) as i64,
            y: (l.position.y + l.height) as i64,
        },
    }
}

/// Whether a click at `p` hits the live layer `l`.
pub open spec fn layer_hit(l: Layer, p: ViewportPosition) -> bool {
    !l.deleted && layer_bounds_spec(l).contains_spec(p)
}

/// The deepest (last in paint order) live layer whose bounds contain `p`.
pub open spec fn click_spec(layers: Seq<Layer>, p: ViewportPosition) -> Option<u64>
    decreases layers.len(),
{
    if layers.len() == 0 {
        None
    } else if layer_hit(layers.last(), p) {
        Some(layers.last().id)
    } else {
        click_spec(layers.drop_last(), p)
    }
}

/// The live layers whose bounds intersect `q`, in paint order.
pub open spec fn intersect_quad_spec(layers: Seq<Layer>, q: Rect) -> Seq<u64>
    decreases layers.len(),
{
    if layers.len() == 0 {
        Seq::empty()
    } else {
        intersect_quad_spec(layers.drop_last(), q) + if !layers.last().deleted
            && layer_bounds_spec(layers.last()).intersects_spec(q) {
            seq![layers.last().id]
        } else {
            Seq::empty()
        }
    }
}

/// The union of the bounds of the selected live layers, if any.
pub open spec fn selection_bbox_spec(layers: Seq<Layer>, selection: Seq<u64>) -> Option<Rect>
    decreases layers.len(),
{
    if layers.len() == 0 {
        None
    } else {
        let rest = selection_bbox_spec(layers.drop_last(), selection);
        if !layers.last().deleted && selection.contains(layers.last().id) {
            match rest {
                Some(r) => Some(rect_union_spec(r, layer_bounds_spec(layers.last()))),
                None => Some(layer_bounds_spec(layers.last())),
            }
        } else {
            rest
        }
    }
}

/// The smallest box containing both arguments.
pub open spec fn rect_union_spec(a: Rect, b: Rect) -> Rect {
    Rect {
        min: ViewportPosition {
            x: if a.min.x <= b.min.x {
                a.min.x
            } else {
                b.min.x
            },
            y: if a.min.y <= b.min.y {
                a.min.y
            } else {
                b.min.y
            },
        },
        max: ViewportPosition {
            x: if a.max.x >= b.max.x {
                a.max.x
            } else {
                b.max.x
            },
            y: if a.max.y >= b.max.y {
                a.max.y
            } else {
                b.max.y
            },
        },
    }
}

/// The first `n` entries of `roots` that survive the shallowest-unique
/// filter: an entry stays when its layer is live and no strict ancestor of
/// it is listed anywhere in `roots`.
pub open spec fn shallowest_unique_prefix(layers: Seq<Layer>, roots: Seq<u64>, n: int) -> Seq<u64>
    decreases n,
{
    if n <= 0 {
        Seq::empty()
    } else {
        shallowest_unique_prefix(layers, roots, n - 1) + {
            match live_index_of(layers, roots[n - 1]) {
                Some(j) => if !chain_has_ancestor_in(layers, roots, j) {
                    seq![roots[n - 1]]
                } else {
                    Seq::empty()
                },
                None => Seq::empty(),
            }
        }
    }
}

/// From `roots`, the identities whose layer has no strict ancestor also
/// listed in `roots`: transforming exactly these moves every listed layer
/// exactly once, nested selections included.
pub open spec fn shallowest_unique_spec(layers: Seq<Layer>, roots: Seq<u64>) -> Seq<u64> {
    shallowest_unique_prefix(layers, roots, roots.len() as int)
}

impl DocumentModel {
    /// The abstract state of the document.
    pub open spec fn state(self) -> DocState {
        DocState {
            layers: self.layers@,
            selection: self.selection@,
            saved: match self.saved {
                Some(s) => Some((s.layers@, s.selection@)),
                None => None,
            },
            next_id: self.next_id,
            violation: self.violation,
        }
    }

    /// The externally visible state: the layer forest and the selection.
    pub open spec fn visible(self) -> (Seq<Layer>, Seq<u64>) {
        (self.layers@, self.selection@)
    }

    /// Document well-formedness.
    pub open spec fn wf(self) -> bool {
        &&& layers_wf(self.layers@)
        &&& ids_below(self.layers@, self.next_id)
        &&& selection_wf(self.layers@, self.selection@)
        &&& self.next_id <= ID_LIMIT
        &&& match self.saved {
            Some(s) => layers_wf(s.layers@) && ids_below(s.layers@, self.next_id)
                && selection_wf(s.layers@, s.selection@),
            None => true,
        }
    }

    /// An empty document.
    pub fn new() -> (r: DocumentModel)
        ensures
            r.wf(),
            r.layers@.len() == 0,
            r.selection@.len() == 0,
            r.saved is None,
            !r.violation,
    {
        DocumentModel {
            layers: Vec::new(),
            selection: Vec::new(),
            saved: None,
            next_id: 0,
            violation: false,
        }
    }

    /// Adds a layer under `parent` (an index into the current forest, or
    /// none for a top level layer) and returns its identity.  Intended for
    /// building documents; fails only when the identity space or geometry
    /// bound would be violated, returning `None` and changing nothing.
    pub fn add_layer(
        &mut self,
        parent: Option<usize>,
        position: ViewportPosition,
        width: i64,
        height: i64,
        kind: LayerKind,
    ) -> (r: Option<u64>)
        requires
            old(self).wf(),
        ensures
            final(self).wf(),
            final(self).saved == old(self).saved,
            final(self).selection@ == old(self).selection@,
            ({
                ||| (r is None && final(self).layers@ == old(self).layers@)
                ||| (r == Some(old(self).next_id) && final(self).layers@ == old(
                    self,
                ).layers@.push(
                    Layer {
                        id: old(self).next_id,
                        parent,
                        position,
                        width,
                        height,
                        kind,
                        deleted: false,
                    },
                ))
            }),
            old(self).next_id < ID_LIMIT && position.in_bounds() && 0 <= width <= COORD_LIMIT && 0
                <= height <= COORD_LIMIT && (parent is Some ==> parent->0 < old(self).layers@.len()
                && !old(self).layers@[parent->0 as int].deleted) ==> r is Some,
    {
        if self.next_id >= ID_LIMIT {
            return None;
        }
        if !(-COORD_LIMIT <= position.x && position.x <= COORD_LIMIT && -COORD_LIMIT <= position.y
            && position.y <= COORD_LIMIT) {
            return None;
        }
        if !(0 <= width && width <= COORD_LIMIT && 0 <= height && height <= COORD_LIMIT) {
            return None;
        }
        if let Some(p) = parent {
            if p >= self.layers.len() {
                return None;
            }
            if self.layers[p].deleted {
                return None;
            }
        }
        let id = self.next_id;
        self.layers.push(
            Layer { id, parent, position, width, height, kind, deleted: false },
        );
        self.next_id = id + 1;
        proof {
            let pre = old(self).layers@;
            let post = self.layers@;
            assert forall|i: int| 0 <= i < post.len() implies layer_wf(
                #[trigger] post[i],
                i,
            ) by {
                if i < pre.len() {
                    assert(layer_wf(pre[i], i));
                }
            }
            assert forall|i: int, j: int|
                0 <= i < post.len() && 0 <= j < post.len() && i != j implies (
            #[trigger] post[i]).id != (#[trigger] post[j]).id by {
                if i < pre.len() && j < pre.len() {
                    assert(pre[i].id != pre[j].id);
                } else if i < pre.len() {
                    assert(pre[i].id < old(self).next_id);
                } else if j < pre.len() {
                    assert(pre[j].id < old(self).next_id);
                }
            }
            assert(layers_wf(post));
            assert forall|k: int|
                0 <= k < self.selection@.len() implies live_index_of(
                post,
                #[trigger] self.selection@[k],
            ) is Some by {
                assert(live_index_of(pre, self.selection@[k]) is Some);
                lemma_live_index_push(pre, post.last(), self.selection@[k]);
            }
        }
        Some(id)
    }

    /// The number of selected layers.
    pub fn selected_count(&self) -> (r: usize)
        ensures
            r == self.selection@.len(),
    {
        self.selection.len()
    }

    /// Whether the selected set contains `id`.
    pub fn selection_contains(&self, id: u64) -> (r: bool)
        ensures
            r == self.selection@.contains(id),
    {
        let mut k: usize = 0;
        while k < self.selection.len()
            invariant
                0 <= k <= self.selection@.len(),
                forall|l: int| 0 <= l < k ==> self.selection@[l] != id,
            decreases self.selection@.len() - k,
        {
            if self.selection[k] == id {
                return true;
            }
            k = k + 1;
        }
        false
    }

    /// The index of the live layer with identity `id`, if any.
    pub fn find_live(&self, id: u64) -> (r: Option<usize>)
        ensures
            match r {
                Some(j) => live_index_of(self.layers@, id) == Some(j as int) && j < self.layers@.len(),
                None => live_index_of(self.layers@, id) is None,
            },
    {
        proof {
            assert(self.layers@.subrange(0, self.layers@.len() as int) =~= self.layers@);
        }
        let mut j: usize = self.layers.len();
        while j > 0
            invariant
                0 <= j <= self.layers@.len(),
                live_index_of(self.layers@, id) == live_index_of(
                    self.layers@.subrange(0, j as int),
                    id,
                ),
            decreases j,
        {
            j = j - 1;
            let l = self.layers[j];
            proof {
                assert(self.layers@.subrange(0, j + 1).drop_last() =~= self.layers@.subrange(
                    0,
                    j as int,
                ));
                assert(self.layers@.subrange(0, j + 1).last() == self.layers@[j as int]);
            }
            if !l.deleted && l.id == id {
                return Some(j);
            }
        }
        proof {
            assert(self.layers@.subrange(0, 0) =~= Seq::<Layer>::empty());
        }
        None
    }

    /// Hit test: the deepest live layer under `p`, honouring paint order.
    pub fn click(&self, p: ViewportPosition) -> (r: Option<u64>)
        requires
            self.wf(),
        ensures
            r == click_spec(self.layers@, p),
    {
        proof {
            assert(self.layers@.subrange(0, self.layers@.len() as int) =~= self.layers@);
        }
        let mut j: usize = self.layers.len();
        while j > 0
            invariant
                forall|i: int|
                    0 <= i < self.layers@.len() ==> layer_wf(#[trigger] self.layers@[i], i),
                0 <= j <= self.layers@.len(),
                click_spec(self.layers@, p) == click_spec(self.layers@.subrange(0, j as int), p),
            decreases j,
        {
            j = j - 1;
            let l = self.layers[j];
            proof {
                assert(self.layers@.subrange(0, j + 1).drop_last() =~= self.layers@.subrange(
                    0,
                    j as int,
                ));
                assert(self.layers@.subrange(0, j + 1).last() == self.layers@[j as int]);
            }
            if !l.deleted {
                let bounds = Rect {
                    min: l.position,
                    max: ViewportPosition { x: l.position.x + l.width, y: l.position.y + l.height },
                };
                if bounds.contains(p) {
                    return Some(l.id);
                }
            }
        }
        proof {
            assert(self.layers@.subrange(0, 0) =~= Seq::<Layer>::empty());
        }
        None
    }

    /// Region test: the live layers whose bounds intersect `q`, in paint
    /// order, for rubber-band selection.
    pub fn intersect_quad(&self, q: &Rect) -> (r: Vec<u64>)
        requires
            self.wf(),
        ensures
            r@ == intersect_quad_spec(self.layers@, *q),
    {
        let mut out: Vec<u64> = Vec::new();
        let mut j: usize = 0;
        while j < self.layers.len()
            invariant
                forall|i: int|
                    0 <= i < self.layers@.len() ==> layer_wf(#[trigger] self.layers@[i], i),
                0 <= j <= self.layers@.len(),
                out@ == intersect_quad_spec(self.layers@.subrange(0, j as int), *q),
            decreases self.layers@.len() - j,
        {
            let l = self.layers[j];
            proof {
                assert(self.layers@.subrange(0, j + 1).drop_last() =~= self.layers@.subrange(
                    0,
                    j as int,
                ));
                assert(self.layers@.subrange(0, j + 1).last() == self.layers@[j as int]);
            }
            if !l.deleted {
                let bounds = Rect {
                    min: l.position,
                    max: ViewportPosition { x: l.position.x + l.width, y: l.position.y + l.height },
                };
                if bounds.intersects(q) {
                    out.push(l.id);
                }
            }
            j = j + 1;
        }
        proof {
            assert(self.layers@.subrange(0, self.layers@.len() as int) =~= self.layers@);
        }
        out
    }

    /// The union of the selected live layers' bounds, or `None` when no
    /// selected layer is live.
    pub fn selection_bounding_box(&self) -> (r: Option<Rect>)
        requires
            self.wf(),
        ensures
            r == selection_bbox_spec(self.layers@, self.selection@),
            match r {
                Some(b) => b.wf(),
                None => true,
            },
    {
        let mut acc: Option<Rect> = None;
        let mut j: usize = 0;
        while j < self.layers.len()
            invariant
                forall|i: int|
                    0 <= i < self.layers@.len() ==> layer_wf(#[trigger] self.layers@[i], i),
                0 <= j <= self.layers@.len(),
                acc == selection_bbox_spec(self.layers@.subrange(0, j as int), self.selection@),
                match acc {
                    Some(b) => b.wf(),
                    None => true,
                },
            decreases self.layers@.len() - j,
        {
            let l = self.layers[j];
            proof {
                assert(self.layers@.subrange(0, j + 1).drop_last() =~= self.layers@.subrange(
                    0,
                    j as int,
                ));
                assert(self.layers@.subrange(0, j + 1).last() == self.layers@[j as int]);
            }
            if !l.deleted && self.selection_contains(l.id) {
                let bounds = Rect {
                    min: l.position,
                    max: ViewportPosition { x: l.position.x + l.width, y: l.position.y + l.height },
                };
                acc = match acc {
                    Some(r) => Some(
                        Rect {
                            min: ViewportPosition {
                                x: if r.min.x <= bounds.min.x {
                                    r.min.x
                                } else {
                                    bounds.min.x
                                },
                                y: if r.min.y <= bounds.min.y {
                                    r.min.y
                                } else {
                                    bounds.min.y
                                },
                            },
                            max: ViewportPosition {
                                x: if r.max.x >= bounds.max.x {
                                    r.max.x
                                } else {
                                    bounds.max.x
                                },
                                y: if r.max.y >= bounds.max.y {
                                    r.max.y
                                } else {
                                    bounds.max.y
                                },
                            },
                        },
                    ),
                    None => Some(bounds),
                };
            }
            j = j + 1;
        }
        proof {
            assert(self.layers@.subrange(0, self.layers@.len() as int) =~= self.layers@);
        }
        acc
    }


    /// The position of the live layer `id`, if any.
    pub fn layer_position(&self, id: u64) -> (r: Option<ViewportPosition>)
        ensures
            match live_index_of(self.layers@, id) {
                Some(j) => r == Some(self.layers@[j].position),
                None => r is None,
            },
    {
        match self.find_live(id) {
            Some(j) => Some(self.layers[j].position),
            None => None,
        }
    }

    /// Whether `id` lies on the ancestor chain of index `j` (including `j`
    /// itself).
    pub fn chain_contains(&self, j: usize, id: u64) -> (r: bool)
        requires
            self.wf(),
            j < self.layers@.len(),
        ensures
            r == (first_in_chain(self.layers@, seq![id], j as int) is Some),
    {
        let mut cur: usize = j;
        loop
            invariant
                self.wf(),
                cur < self.layers@.len(),
                (first_in_chain(self.layers@, seq![id], j as int) is Some) == (first_in_chain(
                    self.layers@,
                    seq![id],
                    cur as int,
                ) is Some),
            decreases cur,
        {
            if self.layers[cur].id == id {
                proof {
                    assert(seq![id][0] == id);
                    assert(seq![id].contains(self.layers@[cur as int].id));
                }
                return true;
            }
            proof {
                assert forall|m: int| 0 <= m < seq![id].len() implies seq![
                    id,
                ][m] != self.layers@[cur as int].id by {
                    assert(seq![id][0] == id);
                }
                assert(!seq![id].contains(self.layers@[cur as int].id));
            }
            match self.layers[cur].parent {
                Some(p) => {
                    proof {
                        assert(layer_wf(self.layers@[cur as int], cur as int));
                    }
                    cur = p;
                },
                None => {
                    return false;
                },
            }
        }
    }

    /// The kind of the live layer `id`, if any.
    pub fn layer_kind(&self, id: u64) -> (r: Option<LayerKind>)
        ensures
            match live_index_of(self.layers@, id) {
                Some(j) => r == Some(self.layers@[j].kind),
                None => r is None,
            },
    {
        match self.find_live(id) {
            Some(j) => Some(self.layers[j].kind),
            None => None,
        }
    }
}

/// Pushing an unrelated layer does not disturb where an identity lives.
pub proof fn lemma_live_index_push(layers: Seq<Layer>, l: Layer, id: u64)
    requires
        live_index_of(layers, id) is Some,
    ensures
        live_index_of(layers.push(l), id) is Some,
    decreases layers.len(),
{
    let pushed = layers.push(l);
    assert(pushed.last() == l);
    assert(pushed.drop_last() =~= layers);
}

/// Identities and tombstones alone decide where an identity lives: positions
/// and kinds do not matter.
pub proof fn lemma_live_index_same(a: Seq<Layer>, b: Seq<Layer>, id: u64)
    requires
        a.len() == b.len(),
        forall|k: int|
            0 <= k < a.len() ==> (#[trigger] b[k]).id == a[k].id && b[k].deleted == a[k].deleted,
    ensures
        live_index_of(a, id) == live_index_of(b, id),
    decreases a.len(),
{
    if a.len() > 0 {
        assert(a.drop_last().len() == b.drop_last().len());
        assert forall|k: int|
            0 <= k < a.drop_last().len() implies (#[trigger] b.drop_last()[k]).id
            == a.drop_last()[k].id && b.drop_last()[k].deleted == a.drop_last()[k].deleted by {
            assert(b[k].id == a[k].id && b[k].deleted == a[k].deleted);
        }
        lemma_live_index_same(a.drop_last(), b.drop_last(), id);
    }
}

/// The selection that survives a deletion keeps only live identities, stays
/// duplicate free, and introduces nothing new.
pub open spec fn retain_live_spec(layers: Seq<Layer>, sel: Seq<u64>) -> Seq<u64>
    decreases sel.len(),
{
    if sel.len() == 0 {
        Seq::empty()
    } else {
        retain_live_spec(layers, sel.drop_last()) + if live_index_of(layers, sel.last()) is Some {
            seq![sel.last()]
        } else {
            Seq::empty()
        }
    }
}

pub proof fn lemma_retain_live_wf(layers: Seq<Layer>, sel: Seq<u64>)
    requires
        forall|k: int, l: int|
            0 <= k < sel.len() && 0 <= l < sel.len() && k != l ==> #[trigger] sel[k]
                != #[trigger] sel[l],
    ensures
        selection_wf(layers, retain_live_spec(layers, sel)),
        forall|x: u64| #[trigger] retain_live_spec(layers, sel).contains(x) ==> sel.contains(x),
    decreases sel.len(),
{
    let ret = retain_live_spec(layers, sel);
    if sel.len() == 0 {
        assert(ret.len() == 0);
    } else {
        let head = sel.drop_last();
        let prev = retain_live_spec(layers, head);
        lemma_retain_live_wf(layers, head);
        assert forall|x: u64| #[trigger] head.contains(x) implies sel.contains(x) by {
            let k = choose|k: int| 0 <= k < head.len() && head[k] == x;
            assert(sel[k] == x);
        }
        assert forall|x: u64| #[trigger] ret.contains(x) implies sel.contains(x) by {
            let k = choose|k: int| 0 <= k < ret.len() && ret[k] == x;
            if k < prev.len() {
                assert(prev.contains(x));
            } else {
                assert(x == sel.last());
                assert(sel[sel.len() - 1] == x);
            }
        }
        if live_index_of(layers, sel.last()) is Some {
            assert(!head.contains(sel.last()));
            assert forall|k: int, l: int|
                0 <= k < ret.len() && 0 <= l < ret.len() && k != l implies #[trigger] ret[k]
                != #[trigger] ret[l] by {
                if k < prev.len() && l < prev.len() {
                } else if k < prev.len() {
                    assert(ret[l] == sel.last());
                    assert(prev.contains(ret[k]));
                } else if l < prev.len() {
                    assert(ret[k] == sel.last());
                    assert(prev.contains(ret[l]));
                }
            }
        }
    }
}

impl DocumentModel {
    /// Opens a transaction: saves the visible state so a later undo can
    /// restore it.  Opening while one is already open replaces the saved
    /// state.
    pub fn start_transaction(&mut self)
        requires
            old(self).wf(),
        ensures
            final(self).wf(),
            final(self).layers@ == old(self).layers@,
            final(self).selection@ == old(self).selection@,
            final(self).next_id == old(self).next_id,
            final(self).violation == old(self).violation,
            final(self).state().saved == Some((old(self).layers@, old(self).selection@)),
    {
        let layers_copy = copy_layers(&self.layers);
        let selection_copy = copy_ids(&self.selection);
        self.saved = Some(DocumentSnapshot { layers: layers_copy, selection: selection_copy });
    }

    /// Closes the open transaction, keeping every edit made since it opened.
    /// With no transaction open this is the programmer-error case: the
    /// sticky violation flag is raised and nothing else changes.
    pub fn commit_transaction(&mut self)
        requires
            old(self).wf(),
        ensures
            final(self).wf(),
            final(self).layers@ == old(self).layers@,
            final(self).selection@ == old(self).selection@,
            final(self).next_id == old(self).next_id,
            final(self).saved is None,
            final(self).violation == (old(self).violation || old(self).saved is None),
    {
        if self.saved.is_none() {
            self.violation = true;
        }
        self.saved = None;
    }

    /// Closes the open transaction and restores the visible state saved when
    /// it opened.  With no transaction open this is the programmer-error
    /// case: the sticky violation flag is raised and nothing else changes.
    pub fn undo(&mut self)
        requires
            old(self).wf(),
        ensures
            final(self).wf(),
            final(self).next_id == old(self).next_id,
            final(self).saved is None,
            match old(self).state().saved {
                Some(snap) => final(self).layers@ == snap.0 && final(self).selection@ == snap.1
                    && final(self).violation == old(self).violation,
                None => final(self).layers@ == old(self).layers@ && final(self).selection@ == old(
                    self,
                ).selection@ && final(self).violation,
            },
    {
        let saved = self.saved.take();
        match saved {
            Some(snap) => {
                self.layers = snap.layers;
                self.selection = snap.selection;
            },
            None => {
                self.violation = true;
            },
        }
    }

    /// Empties the selected set.
    pub fn deselect_all(&mut self)
        requires
            old(self).wf(),
        ensures
            final(self).wf(),
            final(self).layers@ == old(self).layers@,
            final(self).selection@.len() == 0,
            final(self).saved == old(self).saved,
            final(self).next_id == old(self).next_id,
            final(self).violation == old(self).violation,
    {
        self.selection = Vec::new();
    }

    /// Replaces the selected set wholesale.  Stale identities are skipped
    /// and repeats collapse, so the selection stays well formed.
    pub fn set_selection(&mut self, nodes: &Vec<u64>)
        requires
            old(self).wf(),
        ensures
            final(self).wf(),
            final(self).layers@ == old(self).layers@,
            final(self).selection@ == normalize_selection_spec(old(self).layers@, nodes@),
            final(self).saved == old(self).saved,
            final(self).next_id == old(self).next_id,
            final(self).violation == old(self).violation,
    {
        let ghost layers = self.layers@;
        let mut out: Vec<u64> = Vec::new();
        let mut k: usize = 0;
        while k < nodes.len()
            invariant
                0 <= k <= nodes@.len(),
                out@ == normalize_selection_spec(layers, nodes@.subrange(0, k as int)),
                self == old(self),
                layers == self.layers@,
                selection_wf(layers, out@),
            decreases nodes@.len() - k,
        {
            let id = nodes[k];
            proof {
                assert(nodes@.subrange(0, k + 1).drop_last() =~= nodes@.subrange(0, k as int));
                assert(nodes@.subrange(0, k + 1).last() == nodes@[k as int]);
            }
            let is_live = self.find_live(id).is_some();
            let already = vec_contains(&out, id);
            if is_live && !already {
                out.push(id);
            }
            k = k + 1;
        }
        proof {
            assert(nodes@.subrange(0, nodes@.len() as int) =~= nodes@);
        }
        self.selection = out;
    }

    /// Applies the incremental translation `d` to the layer `id` and its
    /// whole subtree.  A stale identity is skipped: never fatal, nothing
    /// changes.
    pub fn translate_layer(&mut self, id: u64, d: ViewportPosition)
        requires
            old(self).wf(),
            -4 * COORD_LIMIT <= d.x <= 4 * COORD_LIMIT,
            -4 * COORD_LIMIT <= d.y <= 4 * COORD_LIMIT,
        ensures
            final(self).wf(),
            final(self).selection@ == old(self).selection@,
            final(self).saved == old(self).saved,
            final(self).next_id == old(self).next_id,
            final(self).violation == old(self).violation,
            match live_index_of(old(self).layers@, id) {
                Some(root) => final(self).layers@ == translate_subtree_spec(
                    old(self).layers@,
                    root,
                    d,
                ),
                None => final(self).layers@ == old(self).layers@,
            },
    {
        let root = match self.find_live(id) {
            Some(j) => j,
            None => {
                return ;
            },
        };
        let ghost pre = self.layers@;
        let mut k: usize = 0;
        while k < self.layers.len()
            invariant
                old(self).wf(),
                0 <= k <= self.layers@.len(),
                self.layers@.len() == pre.len(),
                root < pre.len(),
                self.selection@ == old(self).selection@,
                self.saved == old(self).saved,
                self.next_id == old(self).next_id,
                self.violation == old(self).violation,
                pre == old(self).layers@,
                parents_ordered(pre),
                parents_ordered(self.layers@),
                forall|m: int|
                    0 <= m < pre.len() ==> (#[trigger] self.layers@[m]).parent == pre[m].parent,
                -4 * COORD_LIMIT <= d.x <= 4 * COORD_LIMIT,
                -4 * COORD_LIMIT <= d.y <= 4 * COORD_LIMIT,
                forall|m: int|
                    0 <= m < k ==> #[trigger] self.layers@[m] == translate_subtree_spec(
                        pre,
                        root as int,
                        d,
                    )[m],
                forall|m: int| k <= m < pre.len() ==> #[trigger] self.layers@[m] == pre[m],
            decreases self.layers@.len() - k,
        {
            let member = subtree_member(&self.layers, root, k);
            proof {
                assert(self.layers@[k as int] == pre[k as int]);
                lemma_in_subtree_same(self.layers@, pre, root as int, k as int);
                assert(layer_wf(pre[k as int], k as int));
            }
            if member {
                let l = self.layers[k];
                let moved = crate::geometry::translate(l.position, d);
                let updated = Layer { position: moved, ..l };
                self.layers.set(k, updated);
            }
            k = k + 1;
        }
        proof {
            let post = translate_subtree_spec(pre, root as int, d);
            assert(self.layers@ =~= post);
            assert forall|m: int| 0 <= m < post.len() implies layer_wf(#[trigger] post[m], m) by {
                assert(layer_wf(pre[m], m));
            }
            assert forall|m: int, n: int|
                0 <= m < post.len() && 0 <= n < post.len() && m != n implies (
            #[trigger] post[m]).id != (#[trigger] post[n]).id by {
                assert(pre[m].id != pre[n].id);
            }
            assert forall|sk: int|
                0 <= sk < self.selection@.len() implies live_index_of(
                post,
                #[trigger] self.selection@[sk],
            ) is Some by {
                lemma_live_index_same(pre, post, self.selection@[sk]);
            }
        }
    }

    /// Removes the layer `id` and its whole subtree, leaving tombstones, and
    /// drops the removed identities from the selection.  A stale identity is
    /// skipped.
    pub fn delete_layer(&mut self, id: u64)
        requires
            old(self).wf(),
        ensures
            final(self).wf(),
            final(self).saved == old(self).saved,
            final(self).next_id == old(self).next_id,
            final(self).violation == old(self).violation,
            match live_index_of(old(self).layers@, id) {
                Some(root) => final(self).layers@ == tombstone_subtree_spec(old(self).layers@, root)
                    && final(self).selection@ == retain_live_spec(
                    final(self).layers@,
                    old(self).selection@,
                ),
                None => final(self).layers@ == old(self).layers@ && final(self).selection@ == old(
                    self,
                ).selection@,
            },
    {
        let root = match self.find_live(id) {
            Some(j) => j,
            None => {
                return ;
            },
        };
        let ghost pre = self.layers@;
        let mut k: usize = 0;
        while k < self.layers.len()
            invariant
                old(self).wf(),
                0 <= k <= self.layers@.len(),
                self.layers@.len() == pre.len(),
                root < pre.len(),
                self.selection@ == old(self).selection@,
                self.saved == old(self).saved,
                self.next_id == old(self).next_id,
                self.violation == old(self).violation,
                pre == old(self).layers@,
                parents_ordered(pre),
                parents_ordered(self.layers@),
                forall|m: int|
                    0 <= m < pre.len() ==> (#[trigger] self.layers@[m]).parent == pre[m].parent,
                forall|m: int|
                    0 <= m < k ==> #[trigger] self.layers@[m] == tombstone_subtree_spec(
                        pre,
                        root as int,
                    )[m],
                forall|m: int| k <= m < pre.len() ==> #[trigger] self.layers@[m] == pre[m],
            decreases self.layers@.len() - k,
        {
            let member = subtree_member(&self.layers, root, k);
            proof {
                assert(self.layers@[k as int] == pre[k as int]);
                lemma_in_subtree_same(self.layers@, pre, root as int, k as int);
            }
            if member {
                let l = self.layers[k];
                let updated = Layer { deleted: true, ..l };
                self.layers.set(k, updated);
            }
            k = k + 1;
        }
        proof {
            let post = tombstone_subtree_spec(pre, root as int);
            assert(self.layers@ =~= post);
            assert forall|m: int| 0 <= m < post.len() implies layer_wf(#[trigger] post[m], m) by {
                assert(layer_wf(pre[m], m));
            }
            assert forall|m: int, n: int|
                0 <= m < post.len() && 0 <= n < post.len() && m != n implies (
            #[trigger] post[m]).id != (#[trigger] post[n]).id by {
                assert(pre[m].id != pre[n].id);
            }
        }
        let ghost post = self.layers@;
        let mut out: Vec<u64> = Vec::new();
        let mut k2: usize = 0;
        while k2 < self.selection.len()
            invariant
                0 <= k2 <= self.selection@.len(),
                out@ == retain_live_spec(post, self.selection@.subrange(0, k2 as int)),
                post == self.layers@,
                self.selection@ == old(self).selection@,
            decreases self.selection@.len() - k2,
        {
            let id2 = self.selection[k2];
            proof {
                assert(self.selection@.subrange(0, k2 + 1).drop_last() =~= self.selection@.subrange(
                    0,
                    k2 as int,
                ));
                assert(self.selection@.subrange(0, k2 + 1).last() == self.selection@[k2 as int]);
            }
            if self.find_live(id2).is_some() {
                out.push(id2);
            }
            k2 = k2 + 1;
        }
        proof {
            assert(self.selection@.subrange(0, self.selection@.len() as int)
                =~= self.selection@);
            lemma_retain_live_wf(post, self.selection@);
        }
        self.selection = out;
    }

    /// Produces an independent, selectable copy of the live layer `source`
    /// under the fresh identity `new_id`, at the source's transform
    /// displaced by `offset`.  Skipped without effect when the source is
    /// stale, the identity is out of range or already taken: never fatal.
    pub fn duplicate_layer(&mut self, source: u64, new_id: u64, offset: ViewportPosition)
        requires
            old(self).wf(),
            -4 * COORD_LIMIT <= offset.x <= 4 * COORD_LIMIT,
            -4 * COORD_LIMIT <= offset.y <= 4 * COORD_LIMIT,
        ensures
            final(self).wf(),
            final(self).selection@ == old(self).selection@,
            final(self).saved == old(self).saved,
            final(self).violation == old(self).violation,
            match live_index_of(old(self).layers@, source) {
                Some(j) => if new_id < ID_LIMIT && !id_in_use(old(self).layers@, new_id) {
                    final(self).layers@ == old(self).layers@.push(
                        Layer {
                            id: new_id,
                            parent: old(self).layers@[j].parent,
                            position: translate_spec(old(self).layers@[j].position, offset),
                            width: old(self).layers@[j].width,
                            height: old(self).layers@[j].height,
                            kind: old(self).layers@[j].kind,
                            deleted: false,
                        },
                    ) && final(self).next_id == if old(self).next_id > new_id {
                        old(self).next_id
                    } else {
                        (new_id + 1) as u64
                    }
                } else {
                    final(self).layers@ == old(self).layers@ && final(self).next_id == old(
                        self,
                    ).next_id
                },
                None => final(self).layers@ == old(self).layers@ && final(self).next_id == old(
                    self,
                ).next_id,
            },
    {
        let j = match self.find_live(source) {
            Some(j) => j,
            None => {
                return ;
            },
        };
        if new_id >= ID_LIMIT {
            return ;
        }
        let mut k: usize = 0;
        while k < self.layers.len()
            invariant
                old(self).wf(),
                0 <= k <= self.layers@.len(),
                self == old(self),
                forall|m: int| 0 <= m < k ==> (#[trigger] self.layers@[m]).id != new_id,
            decreases self.layers@.len() - k,
        {
            if self.layers[k].id == new_id {
                proof {
                    lemma_id_in_use_witness(self.layers@, new_id, k as int);
                }
                return ;
            }
            k = k + 1;
        }
        let src = self.layers[j];
        let copy = Layer {
            id: new_id,
            parent: src.parent,
            position: crate::geometry::translate(src.position, offset),
            width: src.width,
            height: src.height,
            kind: src.kind,
            deleted: false,
        };
        self.layers.push(copy);
        if self.next_id <= new_id {
            self.next_id = new_id + 1;
        }
        proof {
            let pre = old(self).layers@;
            let post = self.layers@;
            assert(!id_in_use(pre, new_id));
            assert(live_index_of(pre, source) == Some(j as int));
            lemma_live_index_in_range(pre, source);
            assert(layer_wf(pre[j as int], j as int));
            assert forall|m: int| 0 <= m < post.len() implies layer_wf(#[trigger] post[m], m) by {
                if m < pre.len() {
                    assert(layer_wf(pre[m], m));
                }
            }
            assert forall|m: int, n: int|
                0 <= m < post.len() && 0 <= n < post.len() && m != n implies (
            #[trigger] post[m]).id != (#[trigger] post[n]).id by {
                if m < pre.len() && n < pre.len() {
                    assert(pre[m].id != pre[n].id);
                } else if m < pre.len() {
                    assert(pre[m].id == post[m].id);
                } else if n < pre.len() {
                    assert(pre[n].id == post[n].id);
                }
            }
            assert forall|sk: int|
                0 <= sk < self.selection@.len() implies live_index_of(
                post,
                #[trigger] self.selection@[sk],
            ) is Some by {
                lemma_live_index_push(pre, post.last(), self.selection@[sk]);
            }
            match old(self).saved {
                Some(snap) => {
                    assert(ids_below(snap.layers@, old(self).next_id));
                    assert(ids_below(snap.layers@, self.next_id));
                },
                None => {},
            }
        }
    }

    /// From the identities in `roots`, those whose layer has no strict
    /// ancestor also listed: the set to transform so nested members move
    /// exactly once.
    pub fn shallowest_unique(&self, roots: &Vec<u64>) -> (r: Vec<u64>)
        requires
            self.wf(),
        ensures
            r@ == shallowest_unique_spec(self.layers@, roots@),
    {
        let mut out: Vec<u64> = Vec::new();
        let mut k: usize = 0;
        while k < roots.len()
            invariant
                self.wf(),
                0 <= k <= roots@.len(),
                out@ == shallowest_unique_prefix(self.layers@, roots@, k as int),
            decreases roots@.len() - k,
        {
            let id = roots[k];
            match self.find_live(id) {
                Some(j) => {
                    if !self.chain_hits(roots, j) {
                        out.push(id);
                    }
                },
                None => {},
            }
            k = k + 1;
        }
        out
    }

    /// Whether a strict ancestor of index `j` has its identity in `ids`.
    pub fn chain_hits(&self, ids: &Vec<u64>, j: usize) -> (r: bool)
        requires
            self.wf(),
            j < self.layers@.len(),
        ensures
            r == chain_has_ancestor_in(self.layers@, ids@, j as int),
    {
        let mut cur: usize = j;
        loop
            invariant
                self.wf(),
                cur < self.layers@.len(),
                chain_has_ancestor_in(self.layers@, ids@, j as int) == chain_has_ancestor_in(
                    self.layers@,
                    ids@,
                    cur as int,
                ),
            decreases cur,
        {
            match self.layers[cur].parent {
                Some(p) => {
                    proof {
                        assert(layer_wf(self.layers@[cur as int], cur as int));
                    }
                    if vec_contains(ids, self.layers[p].id) {
                        return true;
                    }
                    cur = p;
                },
                None => {
                    return false;
                },
            }
        }
    }

    /// The identity of the first layer on `j`'s ancestor chain (starting at
    /// `j` itself) that is currently selected, if any.
    pub fn first_selected_ancestor(&self, j: usize) -> (r: Option<u64>)
        requires
            self.wf(),
            j < self.layers@.len(),
        ensures
            match first_in_chain(self.layers@, self.selection@, j as int) {
                Some(m) => r == Some(self.layers@[m].id),
                None => r is None,
            },
    {
        let mut cur: usize = j;
        loop
            invariant
                self.wf(),
                cur < self.layers@.len(),
                first_in_chain(self.layers@, self.selection@, j as int) == first_in_chain(
                    self.layers@,
                    self.selection@,
                    cur as int,
                ),
            decreases cur,
        {
            if self.selection_contains(self.layers[cur].id) {
                return Some(self.layers[cur].id);
            }
            match self.layers[cur].parent {
                Some(p) => {
                    proof {
                        assert(layer_wf(self.layers@[cur as int], cur as int));
                    }
                    cur = p;
                },
                None => {
                    return None;
                },
            }
        }
    }

    /// The identity of the first layer on `j`'s ancestor chain (starting at
    /// `j` itself) whose parent is currently selected, if any: the
    /// drill-down-by-one target of shallow selection.
    pub fn first_child_of_selected(&self, j: usize) -> (r: Option<u64>)
        requires
            self.wf(),
            j < self.layers@.len(),
        ensures
            match first_child_of_chain(self.layers@, self.selection@, j as int) {
                Some(m) => r == Some(self.layers@[m].id),
                None => r is None,
            },
    {
        let mut cur: usize = j;
        loop
            invariant
                self.wf(),
                cur < self.layers@.len(),
                first_child_of_chain(self.layers@, self.selection@, j as int)
                    == first_child_of_chain(self.layers@, self.selection@, cur as int),
            decreases cur,
        {
            match self.layers[cur].parent {
                Some(p) => {
                    proof {
                        assert(layer_wf(self.layers@[cur as int], cur as int));
                    }
                    if self.selection_contains(self.layers[p].id) {
                        return Some(self.layers[cur].id);
                    }
                    cur = p;
                },
                None => {
                    return None;
                },
            }
        }
    }

    /// The identity of the topmost ancestor of index `j`.
    pub fn top_ancestor(&self, j: usize) -> (r: u64)
        requires
            self.wf(),
            j < self.layers@.len(),
        ensures
            r == self.layers@[top_ancestor_of(self.layers@, j as int)].id,
    {
        let mut cur: usize = j;
        loop
            invariant
                self.wf(),
                cur < self.layers@.len(),
                top_ancestor_of(self.layers@, j as int) == top_ancestor_of(
                    self.layers@,
                    cur as int,
                ),
            decreases cur,
        {
            match self.layers[cur].parent {
                Some(p) => {
                    proof {
                        assert(layer_wf(self.layers@[cur as int], cur as int));
                    }
                    cur = p;
                },
                None => {
                    return self.layers[cur].id;
                },
            }
        }
    }
}

/// The layer forest after translating the subtree of `root` by `d`.
pub open spec fn translate_subtree_spec(layers: Seq<Layer>, root: int, d: ViewportPosition) -> Seq<
    Layer,
> {
    Seq::new(
        layers.len(),
        |k: int|
            if in_subtree(layers, root, k) {
                Layer { position: translate_spec(layers[k].position, d), ..layers[k] }
            } else {
                layers[k]
            },
    )
}

/// The layer forest after tombstoning the subtree of `root`.
pub open spec fn tombstone_subtree_spec(layers: Seq<Layer>, root: int) -> Seq<Layer> {
    Seq::new(
        layers.len(),
        |k: int|
            if in_subtree(layers, root, k) {
                Layer { deleted: true, ..layers[k] }
            } else {
                layers[k]
            },
    )
}

/// Whether any layer, live or tombstoned, carries identity `id`.
pub open spec fn id_in_use(layers: Seq<Layer>, id: u64) -> bool {
    exists|k: int| 0 <= k < layers.len() && (#[trigger] layers[k]).id == id
}

/// The nodes kept when a selection is replaced wholesale: live identities,
/// first occurrence only.
pub open spec fn normalize_selection_spec(layers: Seq<Layer>, nodes: Seq<u64>) -> Seq<u64>
    decreases nodes.len(),
{
    if nodes.len() == 0 {
        Seq::empty()
    } else {
        let rest = normalize_selection_spec(layers, nodes.drop_last());
        if live_index_of(layers, nodes.last()) is Some && !rest.contains(nodes.last()) {
            rest.push(nodes.last())
        } else {
            rest
        }
    }
}

/// Membership in the subtree relation depends only on the parent links.
pub proof fn lemma_in_subtree_same(a: Seq<Layer>, b: Seq<Layer>, root: int, j: int)
    requires
        parents_ordered(a),
        parents_ordered(b),
        a.len() == b.len(),
        0 <= j < a.len(),
        forall|k: int| 0 <= k < a.len() ==> (#[trigger] b[k]).parent == a[k].parent,
    ensures
        in_subtree(a, root, j) == in_subtree(b, root, j),
    decreases j,
{
    if j != root {
        match a[j].parent {
            Some(p) => {
                lemma_in_subtree_same(a, b, root, p as int);
            },
            None => {},
        }
    }
}

/// Seeing a layer with identity `id` proves the identity is in use.
pub proof fn lemma_id_in_use_witness(layers: Seq<Layer>, id: u64, k: int)
    requires
        0 <= k < layers.len(),
        layers[k].id == id,
    ensures
        id_in_use(layers, id),
{
}

/// A live index is a real index.
pub proof fn lemma_live_index_in_range(layers: Seq<Layer>, id: u64)
    requires
        live_index_of(layers, id) is Some,
    ensures
        0 <= live_index_of(layers, id)->0 < layers.len(),
        layers[live_index_of(layers, id)->0].id == id,
        !layers[live_index_of(layers, id)->0].deleted,
    decreases layers.len(),
{
    if layers.len() > 0 && !(!layers.last().deleted && layers.last().id == id) {
        lemma_live_index_in_range(layers.drop_last(), id);
    }
}

/// Linear membership scan over a plain identity list.
pub fn vec_contains(v: &Vec<u64>, x: u64) -> (r: bool)
    ensures
        r == v@.contains(x),
{
    let mut k: usize = 0;
    while k < v.len()
        invariant
            0 <= k <= v@.len(),
            forall|l: int| 0 <= l < k ==> v@[l] != x,
        decreases v@.len() - k,
    {
        if v[k] == x {
            return true;
        }
        k = k + 1;
    }
    false
}

/// Element-for-element copy of a layer list.
pub fn copy_layers(v: &Vec<Layer>) -> (r: Vec<Layer>)
    ensures
        r@ == v@,
{
    let mut out: Vec<Layer> = Vec::new();
    let mut k: usize = 0;
    while k < v.len()
        invariant
            0 <= k <= v@.len(),
            out@ == v@.subrange(0, k as int),
        decreases v@.len() - k,
    {
        out.push(v[k]);
        proof {
            assert(out@ =~= v@.subrange(0, k + 1));
        }
        k = k + 1;
    }
    proof {
        assert(v@.subrange(0, v@.len() as int) =~= v@);
    }
    out
}

/// Element-for-element copy of an identity list.
pub fn copy_ids(v: &Vec<u64>) -> (r: Vec<u64>)
    ensures
        r@ == v@,
{
    let mut out: Vec<u64> = Vec::new();
    let mut k: usize = 0;
    while k < v.len()
        invariant
            0 <= k <= v@.len(),
            out@ == v@.subrange(0, k as int),
        decreases v@.len() - k,
    {
        out.push(v[k]);
        proof {
            assert(out@ =~= v@.subrange(0, k + 1));
        }
        k = k + 1;
    }
    proof {
        assert(v@.subrange(0, v@.len() as int) =~= v@);
    }
    out
}

/// Whether a subtree member check on the layer list itself agrees with the
/// specification relation.
pub fn subtree_member(layers: &Vec<Layer>, root: usize, j: usize) -> (r: bool)
    requires
        parents_ordered(layers@),
        j < layers@.len(),
    ensures
        r == in_subtree(layers@, root as int, j as int),
{
    let mut cur: usize = j;
    loop
        invariant
            parents_ordered(layers@),
            cur < layers@.len(),
            in_subtree(layers@, root as int, j as int) == in_subtree(
                layers@,
                root as int,
                cur as int,
            ),
        decreases cur,
    {
        if cur == root {
            return true;
        }
        match layers[cur].parent {
            Some(p) => {
                cur = p;
            },
            None => {
                return false;
            },
        }
    }
}

/// A successful hit test names a live identity.
pub proof fn lemma_click_live(layers: Seq<Layer>, p: ViewportPosition)
    requires
        click_spec(layers, p) is Some,
    ensures
        live_index_of(layers, click_spec(layers, p)->0) is Some,
    decreases layers.len(),
{
    if layers.len() > 0 {
        if layer_hit(layers.last(), p) {
        } else {
            lemma_click_live(layers.drop_last(), p);
        }
    }
}

} // verus!
