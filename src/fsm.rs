//! The tool's state machine: from the current state and one event to the next
//! state, a new session and the commands appended to the outbound queue.

use vstd::prelude::*;

use crate::action::{close_actions, textbox_action, Action, HintInfo, HintInput, HintJoin, HintLabel, MouseCursorIcon};
use crate::content::{EditingText, Font, Typesetting};
use crate::document::{editable_selection, hit_layer, DocumentView};
use crate::geometry::{
    abs, box_points, calculate_points, extent, has_dragged, is_drag, point_of, MousePosition, Point, Quad,
};
use crate::options::{Rgba, TextOptions, TextOptionsUpdate};
use crate::overlays::{
    draw_editing_overlays, draw_placing_overlays, draw_selection_overlays, editing_overlay_actions,
    placing_overlay_actions, selection_overlay_actions,
};
use crate::session::{
    delete_actions, editing_actions, loadable, new_text_actions, snapshot_of, start_editing_actions, TextToolData,
};

verus! {

/// Where the tool stands in an interaction.
#[derive(Clone, Copy, Debug, PartialEq, Eq, Structural)]
pub enum TextToolFsmState {
    /// Ready to place or edit text.
    Ready,
    /// An editable text box is open and receives the user's typing.
    Editing,
    /// The pointer went down to place text but has not moved yet.
    Placing,
    /// The pointer is dragging out a text box.
    Dragging,
}

/// An event delivered to the tool.
#[derive(Debug)]
pub enum TextToolMessage {
    Abort,
    WorkingColorChanged,
    /// An overlay-draw tick; `live_text_size` is the measured size of the live
    /// text under the edited layer's font and typesetting.
    Overlays { live_text_size: Point },
    CommitText,
    DragStart,
    DragStop,
    EditSelected,
    Interact,
    /// The pointer moved; the flags are the center-anchor and lock-aspect modifiers.
    PointerMove { center: bool, lock_ratio: bool },
    PointerOutsideViewport { center: bool, lock_ratio: bool },
    /// The editable box reports its text; `is_left_or_right_click` marks a
    /// change that ends the edit, such as a click elsewhere.
    TextChange { new_text: String, is_left_or_right_click: bool },
    UpdateBounds { new_text: String },
    UpdateOptions(TextOptionsUpdate),
}

/// What the tool reads from the host's input and global state for one event.
#[derive(Clone, Copy, Debug)]
pub struct ToolInput {
    /// The pointer, in canvas units.
    pub mouse: MousePosition,
    /// The visible part of the canvas.
    pub viewport: Quad,
    pub primary_color: Rgba,
    pub secondary_color: Rgba,
    /// A fresh, unused layer identifier for a layer created by this event.
    pub fresh_layer_id: u64,
}

pub open spec fn is_drawing(s: TextToolFsmState) -> bool {
    s == TextToolFsmState::Placing || s == TextToolFsmState::Dragging
}

/// The typesetting of new text: the defaults, and a fixed box the size of the
/// drag when the gesture was a drag.
pub open spec fn new_typesetting(o: TextOptions, start: Point, end: Point) -> Typesetting {
    let dragged = is_drag(start, end);
    Typesetting {
        font_size: o.font_size,
        line_height_ratio: o.line_height_ratio,
        character_spacing: o.character_spacing,
        max_width: if dragged { Some(abs(end.x - start.x) as u64) } else { None },
        max_height: if dragged { Some(abs(end.y - start.y) as u64) } else { None },
    }
}

/// The snapshot of new, still empty text placed at `start`.
pub open spec fn fresh_snapshot(e: EditingText, o: TextOptions, start: Point, end: Point) -> bool {
    &&& e.text@ == Seq::<char>::empty()
    &&& e == EditingText {
        text: e.text,
        font: Font { family: o.font_name, style: o.font_style },
        typesetting: new_typesetting(o, start, end),
        color: o.fill.active(),
        transform: start,
    }
}

/// Editing opened on layer `i` of `doc`.
pub open spec fn opened(
    d: TextToolData,
    doc: DocumentView,
    i: int,
    s: TextToolFsmState,
    q: Seq<Action>,
    d2: TextToolData,
    q2: Seq<Action>,
) -> bool {
    &&& d2 == TextToolData {
        layer: doc.layers@[i].id,
        editing_text: Some(snapshot_of(doc.layers@[i])),
        new_text: doc.layers@[i].content->0.text,
        ..d
    }
    &&& q2 == q + start_editing_actions(doc, i, s, q)
}

/// New text created at the construction box `start`..`end` as layer `id`.
pub open spec fn created(
    d: TextToolData,
    doc: DocumentView,
    o: TextOptions,
    start: Point,
    end: Point,
    id: u64,
    q: Seq<Action>,
    d2: TextToolData,
    q2: Seq<Action>,
) -> bool {
    &&& d2.editing_text is Some
    &&& fresh_snapshot(d2.editing_text->0, o, start, end)
    &&& d2.new_text@ == Seq::<char>::empty()
    &&& d2 == TextToolData { layer: id, editing_text: d2.editing_text, new_text: d2.new_text, ..d }
    &&& q2 == q + new_text_actions(d2.editing_text->0, id, doc.new_layer_parent)
}

/// The layer a release at the end of a gesture opens for editing: only a
/// click (no drag) opens one, the first text layer under the pointer, where
/// it can be loaded.
pub open spec fn click_target(d: TextToolData, doc: DocumentView, mouse: MousePosition) -> Option<int> {
    if is_drag(d.cached_resize_bounds[0], d.cached_resize_bounds[1]) {
        None
    } else {
        match hit_layer(doc.layers@, point_of(mouse)) {
            Some(id) => loadable(doc, id),
            None => None,
        }
    }
}

/// The session after the live buffer is closed out: box closed, snapshot dropped.
pub open spec fn closed(d: TextToolData) -> TextToolData {
    TextToolData { editing_text: None, ..d }
}

/// The relation between one event's inputs and its outcome: state `s`,
/// session `d` and queue `q` go to state `r`, session `d2` and queue `q2`.
pub open spec fn step(
    s: TextToolFsmState,
    e: TextToolMessage,
    d: TextToolData,
    input: ToolInput,
    doc: DocumentView,
    o: TextOptions,
    q: Seq<Action>,
    r: TextToolFsmState,
    d2: TextToolData,
    q2: Seq<Action>,
) -> bool {
    let mouse = input.mouse;
    match e {
        TextToolMessage::Overlays { live_text_size } => {
            &&& r == s
            &&& d2 == d
            &&& q2 == q + if s == TextToolFsmState::Editing {
                editing_overlay_actions(doc, d.layer, d.editing_text is Some, live_text_size)
            } else if is_drawing(s) {
                placing_overlay_actions(doc, Quad::spanned(d.cached_resize_bounds[0], d.cached_resize_bounds[1]))
            } else {
                selection_overlay_actions(doc)
            }
        },
        TextToolMessage::EditSelected => match editable_selection(doc) {
            Some(layer) => match loadable(doc, layer) {
                Some(i) => r == TextToolFsmState::Editing && opened(d, doc, i, s, q, d2, q2),
                None => r == s && d2 == d && q2 == q,
            },
            None => r == s && d2 == d && q2 == q,
        },
        TextToolMessage::Abort => {
            let panning = d.auto_panning.subscribed;
            let q1 = q + seq![Action::FinishTransaction { drag_start: d.resize.drag_start }, Action::ResizeCleanup]
                + if panning { seq![Action::UnsubscribeAutoPan] } else { Seq::empty() };
            &&& r == TextToolFsmState::Ready
            &&& q2 == q1 + if s == TextToolFsmState::Editing { editing_actions(None, false, q1) } else { Seq::empty() }
            &&& d2 == if s == TextToolFsmState::Editing {
                TextToolData { editing_text: None, auto_panning: d.auto_panning.stopped(), ..d }
            } else {
                TextToolData { auto_panning: d.auto_panning.stopped(), ..d }
            }
        },
        TextToolMessage::DragStart => if s == TextToolFsmState::Ready {
            &&& r == TextToolFsmState::Placing
            &&& d2 == TextToolData {
                resize: crate::session::Resize { drag_start: mouse },
                cached_resize_bounds: [point_of(mouse), point_of(mouse)],
                ..d
            }
            &&& q2 == q
        } else {
            r == s && d2 == d && q2 == q
        },
        TextToolMessage::PointerMove { center, lock_ratio } => if is_drawing(s) {
            let (p0, p1) = box_points(d.resize.drag_start, mouse, center, lock_ratio);
            let outside = !input.viewport.holds(point_of(mouse));
            let panning = d.auto_panning.subscribed;
            &&& r == TextToolFsmState::Dragging
            &&& d2 == TextToolData {
                cached_resize_bounds: [p0, p1],
                auto_panning: crate::session::AutoPanning { subscribed: outside },
                ..d
            }
            &&& q2 == q + seq![Action::OverlaysDraw] + if outside && !panning {
                seq![Action::SubscribeAutoPan]
            } else if !outside && panning {
                seq![Action::UnsubscribeAutoPan]
            } else {
                Seq::empty()
            }
        } else {
            &&& r == s
            &&& d2 == d
            &&& q2 == q + seq![Action::SnapPreview { position: mouse }, Action::OverlaysDraw]
        },
        TextToolMessage::PointerOutsideViewport { .. } => if is_drawing(s) {
            &&& r == TextToolFsmState::Dragging
            &&& d2 == d
            &&& q2 == q + if d.auto_panning.subscribed && !input.viewport.holds(point_of(mouse)) {
                seq![Action::ShiftViewport { pointer: mouse }]
            } else {
                Seq::empty()
            }
        } else {
            &&& r == s
            &&& d2 == TextToolData { auto_panning: d.auto_panning.stopped(), ..d }
            &&& q2 == q + if d.auto_panning.subscribed { seq![Action::UnsubscribeAutoPan] } else { Seq::empty() }
        },
        TextToolMessage::DragStop => if is_drawing(s) {
            &&& r == TextToolFsmState::Editing
            &&& match click_target(d, doc, mouse) {
                Some(i) => opened(d, doc, i, s, q, d2, q2),
                None => created(
                    d,
                    doc,
                    o,
                    d.cached_resize_bounds[0],
                    d.cached_resize_bounds[1],
                    input.fresh_layer_id,
                    q,
                    d2,
                    q2,
                ),
            }
        } else {
            r == s && d2 == d && q2 == q
        },
        TextToolMessage::CommitText => if s == TextToolFsmState::Editing {
            if d.new_text@.len() == 0 {
                r == TextToolFsmState::Ready && d2 == closed(d) && q2 == q + delete_actions(d.layer, q)
            } else {
                r == TextToolFsmState::Editing && d2 == d && q2 == q + seq![Action::TriggerTextCommit]
            }
        } else {
            r == s && d2 == d && q2 == q
        },
        TextToolMessage::TextChange { new_text, is_left_or_right_click } => if s == TextToolFsmState::Editing {
            let d1 = TextToolData { new_text, ..d };
            if !is_left_or_right_click {
                r == TextToolFsmState::Editing && d2 == d1 && q2 == q + seq![Action::OverlaysDraw]
            } else if new_text@.len() == 0 {
                r == TextToolFsmState::Ready && d2 == closed(d1) && q2 == q + delete_actions(d.layer, q)
            } else {
                &&& r == TextToolFsmState::Ready
                &&& d2 == closed(d1)
                &&& q2 == q + editing_actions(None, false, q) + seq![
                    Action::SetRenderedText { layer: d.layer, text: new_text },
                    Action::RunDocumentGraph,
                ]
            }
        } else {
            r == s && d2 == d && q2 == q
        },
        TextToolMessage::UpdateBounds { new_text } => if s == TextToolFsmState::Editing {
            &&& r == TextToolFsmState::Editing
            &&& d2 == TextToolData { new_text, ..d }
            &&& q2 == q + seq![Action::OverlaysDraw]
        } else {
            r == s && d2 == d && q2 == q
        },
        TextToolMessage::WorkingColorChanged => {
            &&& r == s
            &&& d2 == d
            &&& q2 == q + seq![
                Action::UpdateWorkingColors { primary: input.primary_color, secondary: input.secondary_color },
            ]
        },
        TextToolMessage::Interact => r == s && d2 == d && q2 == q,
        TextToolMessage::UpdateOptions(_) => r == s && d2 == d && q2 == q,
    }
}

/// The session's invariant in state `s`: a well-formed session holds an
/// editing snapshot exactly while editing.
pub open spec fn consistent(s: TextToolFsmState, d: TextToolData) -> bool {
    d.wf() && (s == TextToolFsmState::Editing <==> d.editing_text is Some)
}

/// The pairs of state and event that the transition table lists; every other
/// pair is a no-op.
pub open spec fn listed(s: TextToolFsmState, e: TextToolMessage) -> bool {
    match e {
        TextToolMessage::Abort => true,
        TextToolMessage::WorkingColorChanged => true,
        TextToolMessage::Overlays { .. } => true,
        TextToolMessage::EditSelected => true,
        TextToolMessage::PointerOutsideViewport { .. } => true,
        TextToolMessage::DragStart => s == TextToolFsmState::Ready,
        TextToolMessage::PointerMove { .. } => is_drawing(s),
        TextToolMessage::DragStop => is_drawing(s),
        TextToolMessage::CommitText => s == TextToolFsmState::Editing,
        TextToolMessage::TextChange { .. } => s == TextToolFsmState::Editing,
        TextToolMessage::UpdateBounds { .. } => s == TextToolFsmState::Editing,
        TextToolMessage::Interact => false,
        TextToolMessage::UpdateOptions(_) => false,
    }
}

/// An event that the transition table does not list for the current state
/// leaves the state and the session unchanged, and queues nothing but the
/// snapping preview and redraw that every pointer move asks for.
pub proof fn lemma_unlisted_event_is_noop(
    s: TextToolFsmState,
    e: TextToolMessage,
    d: TextToolData,
    input: ToolInput,
    doc: DocumentView,
    o: TextOptions,
    q: Seq<Action>,
    r: TextToolFsmState,
    d2: TextToolData,
    q2: Seq<Action>,
)
    requires
        step(s, e, d, input, doc, o, q, r, d2, q2),
        !listed(s, e),
    ensures
        r == s,
        d2 == d,
        !(e is PointerMove) ==> q2 == q,
{
}

/// Committing an empty live buffer, by a commit or by a text change that ends
/// the edit, closes the box, deletes the layer and returns to `Ready`; it
/// never creates a layer, stores text or opens a box.
pub proof fn lemma_empty_commit_deletes(
    s: TextToolFsmState,
    e: TextToolMessage,
    d: TextToolData,
    input: ToolInput,
    doc: DocumentView,
    o: TextOptions,
    q: Seq<Action>,
    r: TextToolFsmState,
    d2: TextToolData,
    q2: Seq<Action>,
)
    requires
        step(s, e, d, input, doc, o, q, r, d2, q2),
        s == TextToolFsmState::Editing,
        (e is CommitText && d.new_text@.len() == 0) || (e matches TextToolMessage::TextChange {
            new_text,
            is_left_or_right_click,
        } && is_left_or_right_click && new_text@.len() == 0),
    ensures
        r == TextToolFsmState::Ready,
        d2.editing_text is None,
        q2.len() >= q.len() + 3,
        q2.subrange(0, q.len() as int) == q,
        q2[q2.len() - 2] == (Action::DeleteLayer { layer: d.layer }),
        q2[q2.len() - 1] == Action::RunDocumentGraph,
        forall|i: int|
            q.len() <= i < q2.len() ==> !(#[trigger] q2[i] is NewTextLayer) && !(q2[i] is SetRenderedText)
                && !(q2[i] is DisplayEditableTextbox),
{
    let a = delete_actions(d.layer, q);
    assert(q2 == q + a);
    assert(q2.subrange(0, q.len() as int) =~= q);
    assert forall|i: int| q.len() <= i < q2.len() implies !(#[trigger] q2[i] is NewTextLayer) && !(
    q2[i] is SetRenderedText) && !(q2[i] is DisplayEditableTextbox) by {
        assert(q2[i] == a[i - q.len()]);
    }
}

/// Opening an edit on a layer while another edit is open closes the open box
/// before opening the new one: the queued commands begin with the removal of
/// the box and open exactly one box, after it.
pub proof fn lemma_switching_closes_first(
    d: TextToolData,
    input: ToolInput,
    doc: DocumentView,
    o: TextOptions,
    q: Seq<Action>,
    r: TextToolFsmState,
    d2: TextToolData,
    q2: Seq<Action>,
)
    requires
        step(TextToolFsmState::Editing, TextToolMessage::EditSelected, d, input, doc, o, q, r, d2, q2),
        editable_selection(doc) matches Some(layer) && loadable(doc, layer) is Some,
    ensures
        r == TextToolFsmState::Editing,
        q2.len() > q.len() + 1,
        q2.subrange(0, q.len() as int) == q,
        q2[q.len() as int] is DisplayRemoveEditableTextbox,
        exists|j: int|
            q.len() < j < q2.len() && (#[trigger] q2[j] is DisplayEditableTextbox) && forall|k: int|
                q.len() <= k < q2.len() && k != j ==> !(#[trigger] q2[k] is DisplayEditableTextbox),
{
    let i = loadable(doc, editable_selection(doc)->0)->0;
    let c = close_actions(q);
    let a = start_editing_actions(doc, i, TextToolFsmState::Editing, q);
    assert(q2 == q + a);
    assert(a == c + seq![
        Action::AddTransaction,
        textbox_action(snapshot_of(doc.layers@[i])),
        Action::SelectLayer { layer: doc.layers@[i].id },
        Action::BlankRenderedText { layer: doc.layers@[i].id },
        Action::RunDocumentGraph,
    ]);
    assert(q2.subrange(0, q.len() as int) =~= q);
    let j = (q.len() + c.len() + 1) as int;
    assert(q2[j] == textbox_action(snapshot_of(doc.layers@[i])));
    assert forall|k: int| q.len() <= k < q2.len() && k != j implies !(#[trigger] q2[k] is DisplayEditableTextbox) by {
        assert(q2[k] == a[k - q.len()]);
    }
}

/// One entry of the hint table.
pub open spec fn hint(group: u8, input: HintInput, label: HintLabel, join: HintJoin) -> HintInfo {
    HintInfo { group, input, label, join }
}

/// The input hints of each state.
pub open spec fn hint_table(s: TextToolFsmState) -> Seq<HintInfo> {
    match s {
        TextToolFsmState::Ready => seq![
            hint(0, HintInput::Lmb, HintLabel::PlaceText, HintJoin::Apart),
            hint(1, HintInput::LmbDrag, HintLabel::PlaceTextBox, HintJoin::Apart),
            hint(1, HintInput::Shift, HintLabel::ConstrainSquare, HintJoin::Plus),
            hint(1, HintInput::Alt, HintLabel::FromCenter, HintJoin::Plus),
            hint(2, HintInput::Lmb, HintLabel::EditText, HintJoin::Apart),
        ],
        TextToolFsmState::Editing => seq![
            hint(0, HintInput::ControlEnter, HintLabel::Blank, HintJoin::Apart),
            hint(0, HintInput::Escape, HintLabel::CommitChanges, HintJoin::Slash),
        ],
        _ => seq![
            hint(0, HintInput::Rmb, HintLabel::Blank, HintJoin::Apart),
            hint(0, HintInput::Escape, HintLabel::Cancel, HintJoin::Slash),
            hint(1, HintInput::Shift, HintLabel::ConstrainSquare, HintJoin::Apart),
            hint(1, HintInput::Alt, HintLabel::FromCenter, HintJoin::Apart),
        ],
    }
}

impl TextToolFsmState {
    /// Handles one event.
    pub fn transition(
        self,
        event: TextToolMessage,
        data: &mut TextToolData,
        input: &ToolInput,
        doc: &DocumentView,
        options: &TextOptions,
        responses: &mut Vec<Action>,
    ) -> (r: TextToolFsmState)
        requires
            old(data).wf(),
        ensures
            final(data).wf(),
            consistent(self, *old(data)) ==> consistent(r, *final(data)),
            step(self, event, *old(data), *input, *doc, *options, old(responses)@, r, *final(data), final(responses)@),
    {
        let state = self;
        let ghost q = responses@;
        match event {
            TextToolMessage::Overlays { live_text_size } => {
                if state == TextToolFsmState::Editing {
                    draw_editing_overlays(doc, data.layer, data.editing_text.is_some(), live_text_size, responses);
                } else if state == TextToolFsmState::Placing || state == TextToolFsmState::Dragging {
                    let area = Quad::from_box(data.cached_resize_bounds);
                    draw_placing_overlays(doc, area, responses);
                } else {
                    draw_selection_overlays(doc, responses);
                }
                state
            },
            TextToolMessage::EditSelected => {
                if let Some(layer) = doc.can_edit_selected() {
                    if data.start_editing_layer(layer, state, doc, responses) {
                        return TextToolFsmState::Editing;
                    }
                }
                state
            },
            TextToolMessage::Abort => {
                responses.push(Action::FinishTransaction { drag_start: data.resize.drag_start });
                responses.push(Action::ResizeCleanup);
                data.auto_panning.stop(responses);
                let ghost q1 = responses@;
                assert(q1 =~= q + seq![
                    Action::FinishTransaction { drag_start: old(data).resize.drag_start },
                    Action::ResizeCleanup,
                ] + if old(data).auto_panning.subscribed {
                    seq![Action::UnsubscribeAutoPan]
                } else {
                    Seq::empty()
                });
                if state == TextToolFsmState::Editing {
                    data.set_editing(false, responses);
                    data.editing_text = None;
                }
                assert(responses@ =~= q1 + if state == TextToolFsmState::Editing {
                    editing_actions(None, false, q1)
                } else {
                    Seq::empty()
                });
                TextToolFsmState::Ready
            },
            TextToolMessage::DragStart => {
                if state != TextToolFsmState::Ready {
                    return state;
                }
                data.resize.drag_start = input.mouse;
                let p = Point { x: input.mouse.x as i64, y: input.mouse.y as i64 };
                data.cached_resize_bounds = [p, p];
                TextToolFsmState::Placing
            },
            TextToolMessage::PointerMove { center, lock_ratio } => {
                if state == TextToolFsmState::Placing || state == TextToolFsmState::Dragging {
                    let corners = calculate_points(data.resize.drag_start, input.mouse, center, lock_ratio);
                    data.cached_resize_bounds = [corners[0], corners[1]];
                    responses.push(Action::OverlaysDraw);
                    data.auto_panning.setup_by_mouse_position(input, responses);
                    assert(responses@ =~= q + seq![Action::OverlaysDraw] + if data.auto_panning.subscribed
                        && !old(data).auto_panning.subscribed {
                        seq![Action::SubscribeAutoPan]
                    } else if !data.auto_panning.subscribed && old(data).auto_panning.subscribed {
                        seq![Action::UnsubscribeAutoPan]
                    } else {
                        Seq::empty()
                    });
                    TextToolFsmState::Dragging
                } else {
                    responses.push(Action::SnapPreview { position: input.mouse });
                    responses.push(Action::OverlaysDraw);
                    assert(responses@ =~= q + seq![Action::SnapPreview { position: input.mouse }, Action::OverlaysDraw]);
                    state
                }
            },
            TextToolMessage::PointerOutsideViewport { .. } => {
                if state == TextToolFsmState::Placing || state == TextToolFsmState::Dragging {
                    data.auto_panning.shift_viewport(input, responses);
                    TextToolFsmState::Dragging
                } else {
                    data.auto_panning.stop(responses);
                    state
                }
            },
            TextToolMessage::DragStop => {
                if !(state == TextToolFsmState::Placing || state == TextToolFsmState::Dragging) {
                    return state;
                }
                let start = data.cached_resize_bounds[0];
                let end = data.cached_resize_bounds[1];
                let dragged = has_dragged(start, end);
                if !dragged {
                    let mouse = Point { x: input.mouse.x as i64, y: input.mouse.y as i64 };
                    if let Some(layer) = doc.check_click(mouse) {
                        if data.start_editing_layer(layer, state, doc, responses) {
                            return TextToolFsmState::Editing;
                        }
                    }
                }
                let typesetting = Typesetting {
                    font_size: options.font_size,
                    line_height_ratio: options.line_height_ratio,
                    character_spacing: options.character_spacing,
                    max_width: if dragged { Some(extent(start.x, end.x)) } else { None },
                    max_height: if dragged { Some(extent(start.y, end.y)) } else { None },
                };
                let editing_text = EditingText {
                    text: String::new(),
                    font: Font::new(options.font_name.clone(), options.font_style.clone()),
                    typesetting,
                    color: options.fill.active_color(),
                    transform: start,
                };
                data.new_text(doc, editing_text, input.fresh_layer_id, responses);
                TextToolFsmState::Editing
            },
            TextToolMessage::CommitText => {
                if state != TextToolFsmState::Editing {
                    return state;
                }
                if data.new_text.as_str().is_empty() {
                    return data.delete_empty_layer(responses);
                }
                responses.push(Action::TriggerTextCommit);
                assert(responses@ =~= q + seq![Action::TriggerTextCommit]);
                TextToolFsmState::Editing
            },
            TextToolMessage::TextChange { new_text, is_left_or_right_click } => {
                if state != TextToolFsmState::Editing {
                    return state;
                }
                data.new_text = new_text;
                if !is_left_or_right_click {
                    responses.push(Action::OverlaysDraw);
                    assert(responses@ =~= q + seq![Action::OverlaysDraw]);
                    return TextToolFsmState::Editing;
                }
                if data.new_text.as_str().is_empty() {
                    return data.delete_empty_layer(responses);
                }
                data.set_editing(false, responses);
                let ghost q1 = responses@;
                data.editing_text = None;
                responses.push(Action::SetRenderedText { layer: data.layer, text: data.new_text.clone() });
                responses.push(Action::RunDocumentGraph);
                assert(responses@ =~= q1 + seq![
                    Action::SetRenderedText { layer: data.layer, text: data.new_text },
                    Action::RunDocumentGraph,
                ]);
                TextToolFsmState::Ready
            },
            TextToolMessage::UpdateBounds { new_text } => {
                if state != TextToolFsmState::Editing {
                    return state;
                }
                data.new_text = new_text;
                responses.push(Action::OverlaysDraw);
                assert(responses@ =~= q + seq![Action::OverlaysDraw]);
                TextToolFsmState::Editing
            },
            TextToolMessage::WorkingColorChanged => {
                responses.push(
                    Action::UpdateWorkingColors { primary: input.primary_color, secondary: input.secondary_color },
                );
                assert(responses@ =~= q + seq![
                    Action::UpdateWorkingColors { primary: input.primary_color, secondary: input.secondary_color },
                ]);
                state
            },
            TextToolMessage::Interact => state,
            TextToolMessage::UpdateOptions(_) => state,
        }
    }

    /// Appends the input hints of the state.
    pub fn update_hints(&self, responses: &mut Vec<Action>)
        ensures
            final(responses)@.len() == old(responses)@.len() + 1,
            final(responses)@.subrange(0, old(responses)@.len() as int) == old(responses)@,
            final(responses)@.last() matches Action::UpdateInputHints { hints } && hints@ == hint_table(*self),
    {
        let mut hints: Vec<HintInfo> = Vec::new();
        match self {
            TextToolFsmState::Ready => {
                hints.push(HintInfo { group: 0, input: HintInput::Lmb, label: HintLabel::PlaceText, join: HintJoin::Apart });
                hints.push(
                    HintInfo { group: 1, input: HintInput::LmbDrag, label: HintLabel::PlaceTextBox, join: HintJoin::Apart },
                );
                hints.push(
                    HintInfo { group: 1, input: HintInput::Shift, label: HintLabel::ConstrainSquare, join: HintJoin::Plus },
                );
                hints.push(HintInfo { group: 1, input: HintInput::Alt, label: HintLabel::FromCenter, join: HintJoin::Plus });
                hints.push(HintInfo { group: 2, input: HintInput::Lmb, label: HintLabel::EditText, join: HintJoin::Apart });
            },
            TextToolFsmState::Editing => {
                hints.push(
                    HintInfo { group: 0, input: HintInput::ControlEnter, label: HintLabel::Blank, join: HintJoin::Apart },
                );
                hints.push(
                    HintInfo { group: 0, input: HintInput::Escape, label: HintLabel::CommitChanges, join: HintJoin::Slash },
                );
            },
            _ => {
                hints.push(HintInfo { group: 0, input: HintInput::Rmb, label: HintLabel::Blank, join: HintJoin::Apart });
                hints.push(HintInfo { group: 0, input: HintInput::Escape, label: HintLabel::Cancel, join: HintJoin::Slash });
                hints.push(
                    HintInfo { group: 1, input: HintInput::Shift, label: HintLabel::ConstrainSquare, join: HintJoin::Apart },
                );
                hints.push(HintInfo { group: 1, input: HintInput::Alt, label: HintLabel::FromCenter, join: HintJoin::Apart });
            },
        }
        assert(hints@ =~= hint_table(*self));
        let ghost q = responses@;
        responses.push(Action::UpdateInputHints { hints });
        assert(responses@.subrange(0, q.len() as int) =~= q);
    }

    /// The pointer icon for the state: a crosshair while dragging, a text caret otherwise.
    pub fn update_cursor(&self, responses: &mut Vec<Action>)
        ensures
            final(responses)@ == old(responses)@ + seq![
                Action::UpdateMouseCursor {
                    cursor: if *self == TextToolFsmState::Dragging {
                        MouseCursorIcon::Crosshair
                    } else {
                        MouseCursorIcon::Text
                    },
                },
            ],
    {
        let cursor = match self {
            TextToolFsmState::Dragging => MouseCursorIcon::Crosshair,
            _ => MouseCursorIcon::Text,
        };
        responses.push(Action::UpdateMouseCursor { cursor });
    }
}

} // verus!
