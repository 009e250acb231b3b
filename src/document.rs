//! A read-only view of the document that the tool queries: its layers in
//! document order, what each holds, and the current selection.

use vstd::prelude::*;

use crate::content::{Font, Typesetting};
use crate::geometry::{Point, Quad};
use crate::options::Rgba;

verus! {

/// Identifier of the virtual root that parents every top-level layer. It is
/// never a valid editing target.
pub const ROOT_PARENT: u64 = 0;

/// The text, font and typesetting that a text layer renders.
#[derive(Debug)]
pub struct TextContent {
    pub text: String,
    pub font: Font,
    pub typesetting: Typesetting,
}

/// What the tool can learn about one layer.
#[derive(Debug)]
pub struct LayerInfo {
    pub id: u64,
    /// The layer is fed by a node that produces text.
    pub is_text: bool,
    /// The layer's text content, where it can be read.
    pub content: Option<TextContent>,
    /// The layer's fill color, where it has one.
    pub fill: Option<Rgba>,
    /// Translation of the layer's transform to viewport space.
    pub origin: Point,
    /// The measured bounding quad of the layer's text, in viewport space.
    pub text_box: Quad,
    /// The layer's bounding box in viewport space, where it has one.
    pub bounds: Option<Quad>,
}

/// The document as the tool sees it while it handles one event.
#[derive(Debug)]
pub struct DocumentView {
    /// Every layer, in document order.
    pub layers: Vec<LayerInfo>,
    /// The selected layers, in selection order.
    pub selected: Vec<u64>,
    /// Where a newly created layer is inserted.
    pub new_layer_parent: u64,
}

/// Index of the first layer at or after `i` whose identifier is `id`.
pub open spec fn find_from(layers: Seq<LayerInfo>, id: u64, i: int) -> Option<int>
    decreases layers.len() - i,
{
    if i < 0 || i >= layers.len() {
        None
    } else if layers[i].id == id {
        Some(i)
    } else {
        find_from(layers, id, i + 1)
    }
}

/// Index of the first layer whose identifier is `id`.
pub open spec fn find_layer(layers: Seq<LayerInfo>, id: u64) -> Option<int> {
    find_from(layers, id, 0)
}

/// A layer that a click can land on: it renders readable text.
pub open spec fn clickable(l: LayerInfo) -> bool {
    l.is_text && l.content is Some
}

/// Index of the first clickable layer at or after `i` whose text quad holds `p`.
pub open spec fn hit_from(layers: Seq<LayerInfo>, p: Point, i: int) -> Option<int>
    decreases layers.len() - i,
{
    if i < 0 || i >= layers.len() {
        None
    } else if clickable(layers[i]) && layers[i].text_box.holds(p) {
        Some(i)
    } else {
        hit_from(layers, p, i + 1)
    }
}

/// The text layer under a click at `p`: the first in document order whose
/// measured text quad holds the point.
pub open spec fn hit_layer(layers: Seq<LayerInfo>, p: Point) -> Option<u64> {
    match hit_from(layers, p, 0) {
        Some(i) => Some(layers[i].id),
        None => None,
    }
}

/// The layer that an edit-selected request targets: the one selected layer,
/// where exactly one is selected and it is a text layer.
pub open spec fn editable_selection(doc: DocumentView) -> Option<u64> {
    if doc.selected.len() != 1 {
        None
    } else {
        let id = doc.selected@[0];
        match find_layer(doc.layers@, id) {
            Some(i) => if doc.layers@[i].is_text { Some(id) } else { None },
            None => None,
        }
    }
}

proof fn lemma_find_from_in_range(layers: Seq<LayerInfo>, id: u64, i: int)
    ensures
        find_from(layers, id, i) matches Some(k) ==> 0 <= k < layers.len() && layers[k].id == id,
    decreases layers.len() - i,
{
    if 0 <= i < layers.len() && layers[i].id != id {
        lemma_find_from_in_range(layers, id, i + 1);
    }
}

proof fn lemma_hit_from_in_range(layers: Seq<LayerInfo>, p: Point, i: int)
    ensures
        hit_from(layers, p, i) matches Some(k) ==> 0 <= k < layers.len() && clickable(layers[k])
            && layers[k].text_box.holds(p),
    decreases layers.len() - i,
{
    if 0 <= i < layers.len() && !(clickable(layers[i]) && layers[i].text_box.holds(p)) {
        lemma_hit_from_in_range(layers, p, i + 1);
    }
}

impl DocumentView {
    /// Index of the first layer whose identifier is `id`.
    pub fn find(&self, id: u64) -> (r: Option<usize>)
        ensures
            r matches Some(k) ==> find_layer(self.layers@, id) == Some(k as int),
            r is None ==> find_layer(self.layers@, id) is None,
            r matches Some(k) ==> k < self.layers.len() && self.layers@[k as int].id == id,
    {
        proof {
            lemma_find_from_in_range(self.layers@, id, 0);
        }
        let mut i: usize = 0;
        while i < self.layers.len()
            invariant
                0 <= i <= self.layers.len(),
                find_from(self.layers@, id, 0) == find_from(self.layers@, id, i as int),
            decreases self.layers.len() - i,
        {
            if self.layers[i].id == id {
                return Some(i);
            }
            i += 1;
        }
        None
    }

    /// The text layer under a click at `p`: the first in document order whose
    /// measured text quad holds the point.
    pub fn check_click(&self, p: Point) -> (r: Option<u64>)
        ensures
            r == hit_layer(self.layers@, p),
    {
        proof {
            lemma_hit_from_in_range(self.layers@, p, 0);
        }
        let mut i: usize = 0;
        while i < self.layers.len()
            invariant
                0 <= i <= self.layers.len(),
                hit_from(self.layers@, p, 0) == hit_from(self.layers@, p, i as int),
            decreases self.layers.len() - i,
        {
            let layer = &self.layers[i];
            if layer.is_text && layer.content.is_some() && layer.text_box.contains(p) {
                return Some(layer.id);
            }
            i += 1;
        }
        None
    }

    /// The one selected layer, where exactly one is selected and it renders text.
    pub fn can_edit_selected(&self) -> (r: Option<u64>)
        ensures
            r == editable_selection(*self),
    {
        if self.selected.len() != 1 {
            return None;
        }
        let id = self.selected[0];
        match self.find(id) {
            Some(i) => if self.layers[i].is_text {
                Some(id)
            } else {
                None
            },
            None => None,
        }
    }
}

} // verus!
