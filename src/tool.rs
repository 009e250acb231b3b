//! The text tool: its state, session and options, and the handling of each
//! incoming message.

use vstd::prelude::*;

use crate::action::Action;
use crate::document::{DocumentView, ROOT_PARENT};
use crate::fsm::{consistent, step, TextToolFsmState, TextToolMessage, ToolInput};
use crate::geometry::Point;
use crate::options::{Rgba, TextOptions, TextOptionsUpdate, DEFAULT_FONT_FAMILY, DEFAULT_FONT_STYLE};
use crate::session::TextToolData;

verus! {

/// The kinds of message the tool accepts from input bindings in a state.
#[derive(Clone, Copy, Debug, PartialEq, Eq, Structural)]
pub enum MessageKind {
    Abort,
    CommitText,
    DragStart,
    DragStop,
    PointerMove,
}

/// Tool-level events of the host that the tool subscribes to.
#[derive(Clone, Copy, Debug, PartialEq, Eq, Structural)]
pub enum ToolEvent {
    CanvasTransformed,
    ToolAbort,
    WorkingColorChanged,
    /// An overlay pass, with the measured size of the live text.
    OverlayProvider { live_text_size: Point },
    SelectionChanged,
}

/// The text tool.
#[derive(Debug)]
pub struct TextTool {
    pub fsm_state: TextToolFsmState,
    pub tool_data: TextToolData,
    pub options: TextOptions,
}

/// The message kinds enabled in each state.
pub open spec fn enabled_kinds(s: TextToolFsmState) -> Seq<MessageKind> {
    match s {
        TextToolFsmState::Ready => seq![MessageKind::DragStart, MessageKind::PointerMove],
        TextToolFsmState::Editing => seq![MessageKind::DragStart, MessageKind::Abort, MessageKind::CommitText],
        _ => seq![MessageKind::DragStop, MessageKind::Abort, MessageKind::PointerMove],
    }
}

/// The message each subscribed tool-level event becomes.
pub open spec fn event_message(e: ToolEvent) -> Option<TextToolMessage> {
    match e {
        ToolEvent::ToolAbort => Some(TextToolMessage::Abort),
        ToolEvent::WorkingColorChanged => Some(TextToolMessage::WorkingColorChanged),
        ToolEvent::OverlayProvider { live_text_size } => Some(TextToolMessage::Overlays { live_text_size }),
        _ => None,
    }
}

/// The commands that follow an options change: the options panel is rebuilt,
/// twice for a change of font.
pub open spec fn options_actions(u: TextOptionsUpdate) -> Seq<Action> {
    if u is Font {
        seq![Action::SendLayout, Action::SendLayout]
    } else {
        seq![Action::SendLayout]
    }
}

impl TextTool {
    /// The tool's invariant.
    pub open spec fn inv(&self) -> bool {
        consistent(self.fsm_state, self.tool_data)
    }

    /// A ready tool with an empty session and the default options.
    pub fn new() -> (r: TextTool)
        ensures
            r.inv(),
            r.fsm_state == TextToolFsmState::Ready,
            r.tool_data.editing_text is None,
            r.tool_data.layer == ROOT_PARENT,
            r.tool_data.new_text@ == Seq::<char>::empty(),
            !r.tool_data.auto_panning.subscribed,
            r.options.font_size == 24,
            r.options.line_height_ratio == 120,
            r.options.character_spacing == 100,
            r.options.font_name@ == DEFAULT_FONT_FAMILY@,
            r.options.font_style@ == DEFAULT_FONT_STYLE@,
            r.options.fill.active() == Some(Rgba::gray(0)),
    {
        TextTool { fsm_state: TextToolFsmState::Ready, tool_data: TextToolData::new(), options: TextOptions::default() }
    }

    pub fn icon_name(&self) -> (r: String)
        ensures
            r@ == "VectorTextTool"@,
    {
        "VectorTextTool".to_owned()
    }

    pub fn tooltip(&self) -> (r: String)
        ensures
            r@ == "Text Tool"@,
    {
        "Text Tool".to_owned()
    }

    /// Handles one message. An options change updates the options and asks
    /// for the panel to be rebuilt; every other message goes through the state
    /// machine, and a change of state refreshes the hints and the cursor.
    pub fn process_message(
        &mut self,
        message: TextToolMessage,
        input: &ToolInput,
        doc: &DocumentView,
        responses: &mut Vec<Action>,
    )
        requires
            old(self).inv(),
        ensures
            final(self).inv(),
            match message {
                TextToolMessage::UpdateOptions(u) => {
                    &&& final(self).options == old(self).options.updated(u)
                    &&& final(self).fsm_state == old(self).fsm_state
                    &&& final(self).tool_data == old(self).tool_data
                    &&& final(responses)@ == old(responses)@ + options_actions(u)
                },
                _ => {
                    &&& final(self).options == old(self).options
                    &&& exists|q: Seq<Action>|
                        #![trigger q.len()]
                        {
                            &&& step(
                                old(self).fsm_state,
                                message,
                                old(self).tool_data,
                                *input,
                                *doc,
                                old(self).options,
                                old(responses)@,
                                final(self).fsm_state,
                                final(self).tool_data,
                                q,
                            )
                            &&& if final(self).fsm_state == old(self).fsm_state {
                                final(responses)@ == q
                            } else {
                                final(responses)@.subrange(0, q.len() as int) == q
                            }
                        }
                },
            },
    {
        match message {
            TextToolMessage::UpdateOptions(update) => {
                let is_font = match update {
                    TextOptionsUpdate::Font { .. } => true,
                    _ => false,
                };
                let ghost u = update;
                self.options.apply(update);
                if is_font {
                    responses.push(Action::SendLayout);
                }
                responses.push(Action::SendLayout);
                proof {
                    assert(responses@ =~= old(responses)@ + options_actions(u));
                }
            },
            _ => {
                let ghost m = message;
                let old_state = self.fsm_state;
                let new_state = self.fsm_state.transition(
                    message,
                    &mut self.tool_data,
                    input,
                    doc,
                    &self.options,
                    responses,
                );
                let ghost q = responses@;
                if new_state != old_state {
                    self.fsm_state = new_state;
                    new_state.update_hints(responses);
                    let ghost q1 = responses@;
                    assert(q1.subrange(0, q.len() as int) =~= q);
                    new_state.update_cursor(responses);
                    assert(responses@.subrange(0, q.len() as int) =~= q);
                }
                assert(step(
                    old(self).fsm_state,
                    m,
                    old(self).tool_data,
                    *input,
                    *doc,
                    old(self).options,
                    old(responses)@,
                    self.fsm_state,
                    self.tool_data,
                    q,
                ) && if self.fsm_state == old(self).fsm_state {
                    responses@ == q
                } else {
                    responses@.subrange(0, q.len() as int) == q
                });
                assert(q.len() >= 0);
            },
        }
    }

    /// The message kinds that input bindings may send in the current state.
    pub fn actions(&self) -> (r: Vec<MessageKind>)
        ensures
            r@ == enabled_kinds(self.fsm_state),
    {
        let mut r: Vec<MessageKind> = Vec::new();
        match self.fsm_state {
            TextToolFsmState::Ready => {
                r.push(MessageKind::DragStart);
                r.push(MessageKind::PointerMove);
            },
            TextToolFsmState::Editing => {
                r.push(MessageKind::DragStart);
                r.push(MessageKind::Abort);
                r.push(MessageKind::CommitText);
            },
            _ => {
                r.push(MessageKind::DragStop);
                r.push(MessageKind::Abort);
                r.push(MessageKind::PointerMove);
            },
        }
        assert(r@ =~= enabled_kinds(self.fsm_state));
        r
    }

    /// The message a tool-level event becomes, where the tool subscribes to it.
    pub fn event_to_message_map(&self, event: ToolEvent) -> (r: Option<TextToolMessage>)
        ensures
            r == event_message(event),
    {
        match event {
            ToolEvent::ToolAbort => Some(TextToolMessage::Abort),
            ToolEvent::WorkingColorChanged => Some(TextToolMessage::WorkingColorChanged),
            ToolEvent::OverlayProvider { live_text_size } => Some(TextToolMessage::Overlays { live_text_size }),
            _ => None,
        }
    }
}

} // verus!
