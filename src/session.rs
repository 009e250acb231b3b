//! The tool's session: the targeted layer, its editing snapshot, the live text
//! buffer and the drag in progress, with the operations that open, close,
//! create and delete an editing session.

use vstd::prelude::*;

use crate::action::{close_actions, queue_has_remove, textbox_action, Action};
use crate::content::EditingText;
use crate::document::{find_layer, DocumentView, LayerInfo, ROOT_PARENT};
use crate::fsm::{TextToolFsmState, ToolInput};
use crate::geometry::{in_bounds, point_of, MousePosition, Point};
use crate::options::Rgba;

verus! {

/// The drag being tracked: where it started.
#[derive(Clone, Copy, Debug, PartialEq, Eq, Structural)]
pub struct Resize {
    pub drag_start: MousePosition,
}

/// Whether the pointer-outside-viewport redelivery is running.
#[derive(Clone, Copy, Debug, PartialEq, Eq, Structural)]
pub struct AutoPanning {
    pub subscribed: bool,
}

impl AutoPanning {
    /// The controller after it is stopped.
    pub open spec fn stopped(self) -> AutoPanning {
        AutoPanning { subscribed: false }
    }

    /// Stops the redelivery where it runs.
    pub fn stop(&mut self, responses: &mut Vec<Action>)
        ensures
            *final(self) == old(self).stopped(),
            final(responses)@ == old(responses)@ + if old(self).subscribed {
                seq![Action::UnsubscribeAutoPan]
            } else {
                Seq::empty()
            },
    {
        if self.subscribed {
            self.subscribed = false;
            responses.push(Action::UnsubscribeAutoPan);
        }
    }

    /// Runs the redelivery exactly while the pointer is outside the viewport,
    /// starting or stopping it as needed.
    pub fn setup_by_mouse_position(&mut self, input: &ToolInput, responses: &mut Vec<Action>)
        ensures
            final(self).subscribed == !input.viewport.holds(point_of(input.mouse)),
            final(responses)@ == old(responses)@ + if final(self).subscribed && !old(self).subscribed {
                seq![Action::SubscribeAutoPan]
            } else if !final(self).subscribed && old(self).subscribed {
                seq![Action::UnsubscribeAutoPan]
            } else {
                Seq::empty()
            },
    {
        let mouse = Point { x: input.mouse.x as i64, y: input.mouse.y as i64 };
        if input.viewport.contains(mouse) {
            self.stop(responses);
        } else if !self.subscribed {
            self.subscribed = true;
            responses.push(Action::SubscribeAutoPan);
        }
    }

    /// While the redelivery runs and the pointer is outside the viewport,
    /// pans the view towards it.
    pub fn shift_viewport(&self, input: &ToolInput, responses: &mut Vec<Action>)
        ensures
            final(responses)@ == old(responses)@ + if self.subscribed && !input.viewport.holds(point_of(input.mouse)) {
                seq![Action::ShiftViewport { pointer: input.mouse }]
            } else {
                Seq::empty()
            },
    {
        let mouse = Point { x: input.mouse.x as i64, y: input.mouse.y as i64 };
        if self.subscribed && !input.viewport.contains(mouse) {
            responses.push(Action::ShiftViewport { pointer: input.mouse });
        }
    }
}

/// The mutable state that the tool keeps while it is active.
#[derive(Debug)]
pub struct TextToolData {
    /// The layer being edited, or last edited.
    pub layer: u64,
    /// The snapshot of the layer being edited; present exactly while editing.
    pub editing_text: Option<EditingText>,
    /// The live text of the editable box, as last reported.
    pub new_text: String,
    pub resize: Resize,
    pub auto_panning: AutoPanning,
    /// The two corners of the construction box, kept for overlay drawing.
    pub cached_resize_bounds: [Point; 2],
}

/// The commands of `set_editing`: open the box on the snapshot, or close it.
pub open spec fn editing_actions(e: Option<EditingText>, editable: bool, q: Seq<Action>) -> Seq<Action> {
    if editable && e is Some {
        seq![textbox_action(e->0)]
    } else {
        close_actions(q)
    }
}

/// The snapshot that editing a layer starts from: its text content, its fill
/// (black where it has none) and its placement.
pub open spec fn snapshot_of(l: LayerInfo) -> EditingText {
    EditingText {
        text: l.content->0.text,
        font: l.content->0.font,
        typesetting: l.content->0.typesetting,
        color: Some(
            match l.fill {
                Some(c) => c,
                None => Rgba::gray(0),
            },
        ),
        transform: l.origin,
    }
}

/// Index of the layer that an edit of `layer` loads from, where it can be
/// edited: not the virtual root, present, and holding text content.
pub open spec fn loadable(doc: DocumentView, layer: u64) -> Option<int> {
    if layer == ROOT_PARENT {
        None
    } else {
        match find_layer(doc.layers@, layer) {
            Some(i) => if doc.layers@[i].content is Some { Some(i) } else { None },
            None => None,
        }
    }
}

/// The commands that delete the empty text layer `layer`.
pub open spec fn delete_actions(layer: u64, q: Seq<Action>) -> Seq<Action> {
    close_actions(q) + seq![Action::DeleteLayer { layer }, Action::RunDocumentGraph]
}

/// The commands that open an editing session on layer `layer` of `doc` from
/// `state`, after `q`: an open box is closed first.
pub open spec fn start_editing_actions(
    doc: DocumentView,
    i: int,
    state: TextToolFsmState,
    q: Seq<Action>,
) -> Seq<Action> {
    let layer = doc.layers@[i].id;
    (if state == TextToolFsmState::Editing {
        close_actions(q)
    } else {
        Seq::empty()
    }) + seq![
        Action::AddTransaction,
        textbox_action(snapshot_of(doc.layers@[i])),
        Action::SelectLayer { layer },
        Action::BlankRenderedText { layer },
        Action::RunDocumentGraph,
    ]
}

/// The commands that create layer `id` for the snapshot `e`.
pub open spec fn new_text_actions(e: EditingText, id: u64, parent: u64) -> Seq<Action> {
    seq![
        Action::AddTransaction,
        Action::NewTextLayer { id, font: e.font, typesetting: e.typesetting, parent, insert_index: 0 },
        Action::StartBuffer,
        Action::FillSet { layer: id, fill: e.color },
        Action::TransformSet { layer: id, transform: e.transform },
        textbox_action(e),
        Action::SelectLayer { layer: id },
        Action::RunDocumentGraph,
    ]
}

impl TextToolData {
    pub open spec fn wf(&self) -> bool {
        in_bounds(self.cached_resize_bounds[0]) && in_bounds(self.cached_resize_bounds[1])
    }

    /// A session with nothing targeted, no drag and no auto-panning.
    pub fn new() -> (r: TextToolData)
        ensures
            r.wf(),
            r.layer == ROOT_PARENT,
            r.editing_text is None,
            r.new_text@ == Seq::<char>::empty(),
            r.resize.drag_start == (MousePosition { x: 0, y: 0 }),
            !r.auto_panning.subscribed,
            r.cached_resize_bounds[0] == (Point { x: 0, y: 0 }),
            r.cached_resize_bounds[1] == (Point { x: 0, y: 0 }),
    {
        TextToolData {
            layer: ROOT_PARENT,
            editing_text: None,
            new_text: String::new(),
            resize: Resize { drag_start: MousePosition { x: 0, y: 0 } },
            auto_panning: AutoPanning { subscribed: false },
            cached_resize_bounds: [Point { x: 0, y: 0 }, Point { x: 0, y: 0 }],
        }
    }

    /// Opens the editable text box on the current snapshot when `editable`
    /// and a snapshot exists; otherwise closes it.
    pub fn set_editing(&self, editable: bool, responses: &mut Vec<Action>)
        ensures
            final(responses)@ == old(responses)@ + editing_actions(self.editing_text, editable, old(responses)@),
    {
        if editable && self.editing_text.is_some() {
            let e = self.editing_text.as_ref().unwrap();
            let color = match e.color {
                Some(c) => c,
                None => Rgba::black(),
            };
            responses.push(
                Action::DisplayEditableTextbox {
                    text: e.text.clone(),
                    font: e.font.duplicate(),
                    typesetting: e.typesetting,
                    color,
                    transform: e.transform,
                },
            );
        } else {
            let has_remove = queue_has_remove(responses);
            responses.push(Action::DisplayRemoveEditableTextbox);
            if has_remove {
                responses.push(Action::ClearSelection);
            }
        }
    }

    /// Ends the session on an empty layer: closes the box, drops the
    /// snapshot and deletes the layer.
    pub fn delete_empty_layer(&mut self, responses: &mut Vec<Action>) -> (r: TextToolFsmState)
        ensures
            r == TextToolFsmState::Ready,
            final(responses)@ == old(responses)@ + delete_actions(old(self).layer, old(responses)@),
            *final(self) == (TextToolData { editing_text: None, ..*old(self) }),
    {
        self.set_editing(false, responses);
        self.editing_text = None;
        responses.push(Action::DeleteLayer { layer: self.layer });
        responses.push(Action::RunDocumentGraph);
        TextToolFsmState::Ready
    }

    /// The snapshot that editing `layer` starts from; nothing where the layer
    /// cannot be edited.
    pub fn load_layer_text_node(doc: &DocumentView, layer: u64) -> (r: Option<EditingText>)
        ensures
            r == match loadable(*doc, layer) {
                Some(i) => Some(snapshot_of(doc.layers@[i])),
                None => None,
            },
            r is Some ==> 0 <= loadable(*doc, layer)->0 < doc.layers.len() && doc.layers@[loadable(
                *doc,
                layer,
            )->0].id == layer,
    {
        if layer == ROOT_PARENT {
            return None;
        }
        let i = match doc.find(layer) {
            Some(i) => i,
            None => return None,
        };
        let l = &doc.layers[i];
        let content = match &l.content {
            Some(c) => c,
            None => return None,
        };
        let color = match l.fill {
            Some(c) => c,
            None => Rgba::black(),
        };
        Some(
            EditingText {
                text: content.text.clone(),
                font: content.font.duplicate(),
                typesetting: content.typesetting,
                color: Some(color),
                transform: l.origin,
            },
        )
    }

    /// Opens an editing session on `layer`, closing the open one first when
    /// `state` is editing. Declines, changing nothing, where the layer is the
    /// virtual root, is absent or holds no text content.
    pub fn start_editing_layer(
        &mut self,
        layer: u64,
        state: TextToolFsmState,
        doc: &DocumentView,
        responses: &mut Vec<Action>,
    ) -> (r: bool)
        ensures
            r == loadable(*doc, layer) is Some,
            !r ==> *final(self) == *old(self) && final(responses)@ == old(responses)@,
            r ==> {
                let i = loadable(*doc, layer)->0;
                &&& 0 <= i < doc.layers.len() && doc.layers@[i].id == layer
                &&& *final(self) == (TextToolData {
                    layer,
                    editing_text: Some(snapshot_of(doc.layers@[i])),
                    new_text: doc.layers@[i].content->0.text,
                    ..*old(self)
                })
                &&& final(responses)@ == old(responses)@ + start_editing_actions(*doc, i, state, old(responses)@)
            },
    {
        let snapshot = match TextToolData::load_layer_text_node(doc, layer) {
            Some(e) => e,
            None => return false,
        };
        if state == TextToolFsmState::Editing {
            self.set_editing(false, responses);
        }
        self.layer = layer;
        self.new_text = snapshot.text.clone();
        self.editing_text = Some(snapshot);
        responses.push(Action::AddTransaction);
        self.set_editing(true, responses);
        responses.push(Action::SelectLayer { layer });
        responses.push(Action::BlankRenderedText { layer });
        responses.push(Action::RunDocumentGraph);
        true
    }

    /// Creates layer `id` for the snapshot `editing_text`, with an empty live
    /// buffer, and opens the editable box on it.
    pub fn new_text(
        &mut self,
        doc: &DocumentView,
        editing_text: EditingText,
        id: u64,
        responses: &mut Vec<Action>,
    )
        ensures
            final(self).new_text@ == Seq::<char>::empty(),
            *final(self) == (TextToolData {
                layer: id,
                editing_text: Some(editing_text),
                new_text: final(self).new_text,
                ..*old(self)
            }),
            final(responses)@ == old(responses)@ + new_text_actions(editing_text, id, doc.new_layer_parent),
    {
        self.new_text = String::new();
        responses.push(Action::AddTransaction);
        self.layer = id;
        responses.push(
            Action::NewTextLayer {
                id,
                font: editing_text.font.duplicate(),
                typesetting: editing_text.typesetting,
                parent: doc.new_layer_parent,
                insert_index: 0,
            },
        );
        responses.push(Action::StartBuffer);
        responses.push(Action::FillSet { layer: id, fill: editing_text.color });
        responses.push(Action::TransformSet { layer: id, transform: editing_text.transform });
        self.editing_text = Some(editing_text);
        self.set_editing(true, responses);
        responses.push(Action::SelectLayer { layer: id });
        responses.push(Action::RunDocumentGraph);
    }
}

} // verus!
