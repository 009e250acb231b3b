//! Commands that the tool appends to its outbound queue. The host applies them
//! in order after each event.

use vstd::prelude::*;

use crate::content::{EditingText, Font, Typesetting};
use crate::geometry::{MousePosition, Point, Quad};
use crate::options::Rgba;

verus! {

/// The pointer icon the tool asks for.
#[derive(Clone, Copy, Debug, PartialEq, Eq, Structural)]
pub enum MouseCursorIcon {
    Crosshair,
    Text,
}

/// The input that a hint describes.
#[derive(Clone, Copy, Debug, PartialEq, Eq, Structural)]
pub enum HintInput {
    Lmb,
    LmbDrag,
    Rmb,
    Shift,
    Alt,
    ControlEnter,
    Escape,
}

/// What a hinted input does.
#[derive(Clone, Copy, Debug, PartialEq, Eq, Structural)]
pub enum HintLabel {
    Blank,
    PlaceText,
    PlaceTextBox,
    ConstrainSquare,
    FromCenter,
    EditText,
    CommitChanges,
    Cancel,
}

impl HintLabel {
    /// The text shown for the label.
    pub fn text(&self) -> &'static str {
        match self {
            HintLabel::Blank => "",
            HintLabel::PlaceText => "Place Text",
            HintLabel::PlaceTextBox => "Place Text Box",
            HintLabel::ConstrainSquare => "Constrain Square",
            HintLabel::FromCenter => "From Center",
            HintLabel::EditText => "Edit Text",
            HintLabel::CommitChanges => "Commit Changes",
            HintLabel::Cancel => "Cancel",
        }
    }
}

/// How a hint is joined to the one before it in its group.
#[derive(Clone, Copy, Debug, PartialEq, Eq, Structural)]
pub enum HintJoin {
    Apart,
    Plus,
    Slash,
}

/// One entry of the input hint bar; entries with the same `group` are shown together.
#[derive(Clone, Copy, Debug, PartialEq, Eq, Structural)]
pub struct HintInfo {
    pub group: u8,
    pub input: HintInput,
    pub label: HintLabel,
    pub join: HintJoin,
}

/// One outbound command.
#[derive(Debug)]
pub enum Action {
    /// Open a transaction boundary in the document history.
    AddTransaction,
    /// Hold back rendering until the next graph recompute.
    StartBuffer,
    /// Settle the transaction of a drag that began at `drag_start`.
    FinishTransaction { drag_start: MousePosition },
    /// Release what the resize controller holds for the current drag.
    ResizeCleanup,
    /// Show the editable text box over the canvas.
    DisplayEditableTextbox { text: String, font: Font, typesetting: Typesetting, color: Rgba, transform: Point },
    /// Remove the editable text box.
    DisplayRemoveEditableTextbox,
    /// Move the editable text box to follow its layer.
    DisplayEditableTextboxTransform { transform: Point },
    /// Ask the editable text box to hand back its final content.
    TriggerTextCommit,
    /// Make `layer` the whole selection.
    SelectLayer { layer: u64 },
    /// Empty the selection.
    ClearSelection,
    /// Render `layer` with empty text while its editable box is open.
    BlankRenderedText { layer: u64 },
    /// Store `text` as the rendered text of `layer`.
    SetRenderedText { layer: u64, text: String },
    /// Delete `layer` and everything under it.
    DeleteLayer { layer: u64 },
    /// Recompute the document graph.
    RunDocumentGraph,
    /// Create a text layer with empty text.
    NewTextLayer { id: u64, font: Font, typesetting: Typesetting, parent: u64, insert_index: usize },
    /// Set the fill of `layer`; `None` removes it.
    FillSet { layer: u64, fill: Option<Rgba> },
    /// Place `layer` at `transform` in viewport space.
    TransformSet { layer: u64, transform: Point },
    /// Request an overlay redraw pass.
    OverlaysDraw,
    /// Show the snapping preview for the pointer at `position`.
    SnapPreview { position: MousePosition },
    /// Draw the snapping subsystem's own overlays.
    DrawSnapOverlays,
    /// Draw a quad on the overlay layer, filled with the highlight tint or outlined.
    DrawQuad { quad: Quad, filled: bool },
    /// Redeliver a pointer-outside-viewport and a pointer-move event, with the
    /// modifiers as they are then, on every frame until unsubscribed.
    SubscribeAutoPan,
    /// Stop the redelivery that `SubscribeAutoPan` started.
    UnsubscribeAutoPan,
    /// Pan the view towards the pointer at `pointer`, which lies outside it.
    ShiftViewport { pointer: MousePosition },
    /// Refresh the fill defaults from the global working colors.
    UpdateWorkingColors { primary: Rgba, secondary: Rgba },
    /// Rebuild the options panel.
    SendLayout,
    /// Show these input hints.
    UpdateInputHints { hints: Vec<HintInfo> },
    /// Show this pointer icon.
    UpdateMouseCursor { cursor: MouseCursorIcon },
}

/// The command that opens the editable text box on a snapshot; with no fill
/// the box shows black text.
pub open spec fn textbox_action(e: EditingText) -> Action {
    Action::DisplayEditableTextbox {
        text: e.text,
        font: e.font,
        typesetting: e.typesetting,
        color: match e.color {
            Some(c) => c,
            None => Rgba::gray(0),
        },
        transform: e.transform,
    }
}

/// A removal of the editable text box is already queued.
pub open spec fn has_remove(q: Seq<Action>) -> bool {
    exists|i: int| 0 <= i < q.len() && (#[trigger] q[i]) is DisplayRemoveEditableTextbox
}

/// The commands that close the editable text box. A second removal in one
/// queue also clears the selection.
pub open spec fn close_actions(q: Seq<Action>) -> Seq<Action> {
    if has_remove(q) {
        seq![Action::DisplayRemoveEditableTextbox, Action::ClearSelection]
    } else {
        seq![Action::DisplayRemoveEditableTextbox]
    }
}

/// Whether `q` already holds a removal of the editable text box.
pub fn queue_has_remove(q: &Vec<Action>) -> (r: bool)
    ensures
        r == has_remove(q@),
{
    let mut i: usize = 0;
    while i < q.len()
        invariant
            0 <= i <= q.len(),
            forall|j: int| 0 <= j < i ==> !(#[trigger] q@[j] is DisplayRemoveEditableTextbox),
        decreases q.len() - i,
    {
        if let Action::DisplayRemoveEditableTextbox = q[i] {
            return true;
        }
        i += 1;
    }
    false
}

} // verus!
