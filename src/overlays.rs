//! The quads drawn on the overlay layer in each state.

use vstd::prelude::*;

use crate::action::Action;
use crate::document::{find_layer, DocumentView, LayerInfo};
use crate::geometry::{Point, Quad};

verus! {

/// Placement of layer `id`; a layer that is not in the document sits at the origin.
pub open spec fn origin_of(doc: DocumentView, id: u64) -> Point {
    match find_layer(doc.layers@, id) {
        Some(i) => doc.layers@[i].origin,
        None => Point { x: 0, y: 0 },
    }
}

/// Highlights of the first `n` layers whose bounding box meets `area`.
pub open spec fn preview_quads(layers: Seq<LayerInfo>, area: Quad, n: int) -> Seq<Action>
    decreases n,
{
    if n <= 0 {
        Seq::empty()
    } else {
        preview_quads(layers, area, n - 1) + match layers[n - 1].bounds {
            Some(b) => if b.meets(area) {
                seq![Action::DrawQuad { quad: b, filled: true }]
            } else {
                Seq::empty()
            },
            None => Seq::empty(),
        }
    }
}

/// Outlines of the text of the first `n` selected layers that hold text.
pub open spec fn selection_quads(doc: DocumentView, n: int) -> Seq<Action>
    decreases n,
{
    if n <= 0 {
        Seq::empty()
    } else {
        selection_quads(doc, n - 1) + match find_layer(doc.layers@, doc.selected@[n - 1]) {
            Some(i) => if doc.layers@[i].content is Some {
                seq![Action::DrawQuad { quad: doc.layers@[i].text_box, filled: false }]
            } else {
                Seq::empty()
            },
            None => Seq::empty(),
        }
    }
}

/// While editing: the editable box follows its layer, and the live text's
/// measured quad is highlighted unless one of its sides is zero.
pub open spec fn editing_overlay_actions(doc: DocumentView, layer: u64, has_snapshot: bool, live_size: Point) -> Seq<
    Action,
> {
    let origin = origin_of(doc, layer);
    seq![Action::DisplayEditableTextboxTransform { transform: origin }] + if has_snapshot && live_size.x != 0
        && live_size.y != 0 {
        seq![Action::DrawQuad { quad: Quad { origin, size: live_size }, filled: true }]
    } else {
        Seq::empty()
    }
}

/// While a box is dragged out: every layer it meets, then the box itself.
pub open spec fn placing_overlay_actions(doc: DocumentView, area: Quad) -> Seq<Action> {
    preview_quads(doc.layers@, area, doc.layers.len() as int) + seq![
        Action::DrawQuad { quad: area, filled: true },
        Action::DrawSnapOverlays,
    ]
}

/// Otherwise: the text quad of every selected text layer.
pub open spec fn selection_overlay_actions(doc: DocumentView) -> Seq<Action> {
    selection_quads(doc, doc.selected.len() as int) + seq![Action::DrawSnapOverlays]
}

/// Placement of layer `id` in `doc`.
pub fn layer_origin(doc: &DocumentView, id: u64) -> (r: Point)
    ensures
        r == origin_of(*doc, id),
{
    match doc.find(id) {
        Some(i) => doc.layers[i].origin,
        None => Point { x: 0, y: 0 },
    }
}

pub fn draw_editing_overlays(
    doc: &DocumentView,
    layer: u64,
    has_snapshot: bool,
    live_size: Point,
    responses: &mut Vec<Action>,
)
    ensures
        final(responses)@ == old(responses)@ + editing_overlay_actions(*doc, layer, has_snapshot, live_size),
{
    let origin = layer_origin(doc, layer);
    responses.push(Action::DisplayEditableTextboxTransform { transform: origin });
    if has_snapshot && live_size.x != 0 && live_size.y != 0 {
        responses.push(Action::DrawQuad { quad: Quad { origin, size: live_size }, filled: true });
    }
    assert(final(responses)@ =~= old(responses)@ + editing_overlay_actions(*doc, layer, has_snapshot, live_size));
}

pub fn draw_placing_overlays(doc: &DocumentView, area: Quad, responses: &mut Vec<Action>)
    ensures
        final(responses)@ == old(responses)@ + placing_overlay_actions(*doc, area),
{
    let ghost start = responses@;
    let mut i: usize = 0;
    while i < doc.layers.len()
        invariant
            0 <= i <= doc.layers.len(),
            responses@ == start + preview_quads(doc.layers@, area, i as int),
        decreases doc.layers.len() - i,
    {
        if let Some(b) = doc.layers[i].bounds {
            if b.intersects(&area) {
                responses.push(Action::DrawQuad { quad: b, filled: true });
            }
        }
        proof {
            assert(preview_quads(doc.layers@, area, i + 1) =~= preview_quads(doc.layers@, area, i as int)
                + match doc.layers@[i as int].bounds {
                Some(b) => if b.meets(area) {
                    seq![Action::DrawQuad { quad: b, filled: true }]
                } else {
                    Seq::empty()
                },
                None => Seq::empty(),
            });
        }
        i += 1;
    }
    responses.push(Action::DrawQuad { quad: area, filled: true });
    responses.push(Action::DrawSnapOverlays);
    assert(responses@ =~= start + placing_overlay_actions(*doc, area));
}

pub fn draw_selection_overlays(doc: &DocumentView, responses: &mut Vec<Action>)
    ensures
        final(responses)@ == old(responses)@ + selection_overlay_actions(*doc),
{
    let ghost start = responses@;
    let mut i: usize = 0;
    while i < doc.selected.len()
        invariant
            0 <= i <= doc.selected.len(),
            responses@ == start + selection_quads(*doc, i as int),
        decreases doc.selected.len() - i,
    {
        if let Some(k) = doc.find(doc.selected[i]) {
            if doc.layers[k].content.is_some() {
                responses.push(Action::DrawQuad { quad: doc.layers[k].text_box, filled: false });
            }
        }
        proof {
            assert(selection_quads(*doc, i + 1) =~= selection_quads(*doc, i as int) + match find_layer(
                doc.layers@,
                doc.selected@[i as int],
            ) {
                Some(j) => if doc.layers@[j].content is Some {
                    seq![Action::DrawQuad { quad: doc.layers@[j].text_box, filled: false }]
                } else {
                    Seq::empty()
                },
                None => Seq::empty(),
            });
        }
        i += 1;
    }
    responses.push(Action::DrawSnapOverlays);
    assert(responses@ =~= start + selection_overlay_actions(*doc));
}

} // verus!
