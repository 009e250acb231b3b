use text_tool::action::{Action, HintLabel, MouseCursorIcon};
use text_tool::content::{EditingText, Font, Typesetting};
use text_tool::document::{DocumentView, LayerInfo, TextContent, ROOT_PARENT};
use text_tool::fsm::{TextToolFsmState, TextToolMessage, ToolInput};
use text_tool::geometry::{MousePosition, Point, Quad};
use text_tool::options::{Rgba, TextOptions, TextOptionsUpdate, ToolColorType};
use text_tool::session::TextToolData;
use text_tool::tool::{MessageKind, TextTool, ToolEvent};

fn pt(x: i64, y: i64) -> Point {
    Point { x, y }
}

fn input_at(x: i32, y: i32) -> ToolInput {
    ToolInput {
        mouse: MousePosition { x, y },
        viewport: Quad { origin: pt(0, 0), size: pt(800, 600) },
        primary_color: Rgba { r: 10, g: 20, b: 30, a: 255 },
        secondary_color: Rgba { r: 200, g: 210, b: 220, a: 255 },
        fresh_layer_id: 77,
    }
}

fn typesetting() -> Typesetting {
    Typesetting { font_size: 24, line_height_ratio: 120, character_spacing: 100, max_width: None, max_height: None }
}

fn text_layer(id: u64, text: &str, origin: Point, size: Point) -> LayerInfo {
    LayerInfo {
        id,
        is_text: true,
        content: Some(TextContent {
            text: text.to_string(),
            font: Font::new("Cabin".to_string(), "Normal (400)".to_string()),
            typesetting: typesetting(),
        }),
        fill: Some(Rgba { r: 1, g: 2, b: 3, a: 255 }),
        origin,
        text_box: Quad { origin, size },
        bounds: Some(Quad { origin, size }),
    }
}

fn empty_doc() -> DocumentView {
    DocumentView { layers: Vec::new(), selected: Vec::new(), new_layer_parent: 5 }
}

fn editing_session(layer: u64, live: &str) -> TextToolData {
    let mut data = TextToolData::new();
    data.layer = layer;
    data.new_text = live.to_string();
    data.editing_text = Some(EditingText {
        text: live.to_string(),
        font: Font::new("Cabin".to_string(), "Normal (400)".to_string()),
        typesetting: typesetting(),
        color: None,
        transform: pt(0, 0),
    });
    data
}

fn run(
    state: TextToolFsmState,
    event: TextToolMessage,
    data: &mut TextToolData,
    input: &ToolInput,
    doc: &DocumentView,
) -> (TextToolFsmState, Vec<Action>) {
    let options = TextOptions::default();
    let mut responses = Vec::new();
    let next = state.transition(event, data, input, doc, &options, &mut responses);
    (next, responses)
}

#[test]
fn drag_start_seeds_zero_size_box_at_anchor() {
    let mut data = TextToolData::new();
    let (next, responses) =
        run(TextToolFsmState::Ready, TextToolMessage::DragStart, &mut data, &input_at(10, 10), &empty_doc());
    assert_eq!(next, TextToolFsmState::Placing);
    assert_eq!(data.cached_resize_bounds, [pt(10, 10), pt(10, 10)]);
    assert_eq!(data.resize.drag_start, MousePosition { x: 10, y: 10 });
    assert!(responses.is_empty());
}

#[test]
fn click_on_empty_canvas_creates_auto_growing_text() {
    let mut data = TextToolData::new();
    let doc = empty_doc();
    let input = input_at(10, 10);
    let (s, _) = run(TextToolFsmState::Ready, TextToolMessage::DragStart, &mut data, &input, &doc);
    let (s, _) = run(s, TextToolMessage::PointerMove { center: false, lock_ratio: false }, &mut data, &input, &doc);
    assert_eq!(s, TextToolFsmState::Dragging);
    assert_eq!(data.cached_resize_bounds, [pt(10, 10), pt(10, 10)]);
    let (s, responses) = run(s, TextToolMessage::DragStop, &mut data, &input, &doc);
    assert_eq!(s, TextToolFsmState::Editing);
    assert_eq!(data.layer, 77);
    assert_eq!(data.new_text, "");
    let e = data.editing_text.as_ref().unwrap();
    assert_eq!(e.text, "");
    assert_eq!(e.transform, pt(10, 10));
    assert_eq!(e.typesetting.max_width, None);
    assert_eq!(e.typesetting.max_height, None);
    assert_eq!(e.font.family, "Cabin");
    assert_eq!(e.color, Some(Rgba { r: 0, g: 0, b: 0, a: 255 }));
    assert_eq!(responses.len(), 8);
    assert!(matches!(responses[0], Action::AddTransaction));
    match &responses[1] {
        Action::NewTextLayer { id, typesetting, parent, insert_index, .. } => {
            assert_eq!(*id, 77);
            assert_eq!(typesetting.max_width, None);
            assert_eq!(typesetting.max_height, None);
            assert_eq!(typesetting.font_size, 24);
            assert_eq!(*parent, 5);
            assert_eq!(*insert_index, 0);
        }
        other => panic!("unexpected {:?}", other),
    }
    assert!(matches!(responses[2], Action::StartBuffer));
    assert!(matches!(responses[3], Action::FillSet { layer: 77, fill: Some(_) }));
    assert!(matches!(responses[4], Action::TransformSet { layer: 77, transform: Point { x: 10, y: 10 } }));
    assert!(matches!(responses[5], Action::DisplayEditableTextbox { .. }));
    assert!(matches!(responses[6], Action::SelectLayer { layer: 77 }));
    assert!(matches!(responses[7], Action::RunDocumentGraph));
}

#[test]
fn drag_past_threshold_creates_fixed_box() {
    let mut data = TextToolData::new();
    let doc = empty_doc();
    let (s, _) = run(TextToolFsmState::Ready, TextToolMessage::DragStart, &mut data, &input_at(10, 20), &doc);
    let (s, _) =
        run(s, TextToolMessage::PointerMove { center: false, lock_ratio: false }, &mut data, &input_at(4, 60), &doc);
    let (s, _) = run(s, TextToolMessage::DragStop, &mut data, &input_at(4, 60), &doc);
    assert_eq!(s, TextToolFsmState::Editing);
    let e = data.editing_text.as_ref().unwrap();
    assert_eq!(e.transform, pt(10, 20));
    assert_eq!(e.typesetting.max_width, Some(6));
    assert_eq!(e.typesetting.max_height, Some(40));
}

#[test]
fn displacement_at_threshold_is_a_click() {
    let mut data = TextToolData::new();
    let doc = empty_doc();
    let (s, _) = run(TextToolFsmState::Ready, TextToolMessage::DragStart, &mut data, &input_at(0, 0), &doc);
    let (s, _) =
        run(s, TextToolMessage::PointerMove { center: false, lock_ratio: false }, &mut data, &input_at(1, 0), &doc);
    let (_, _) = run(s, TextToolMessage::DragStop, &mut data, &input_at(1, 0), &doc);
    assert_eq!(data.editing_text.as_ref().unwrap().typesetting.max_width, None);

    let mut data = TextToolData::new();
    let (s, _) = run(TextToolFsmState::Ready, TextToolMessage::DragStart, &mut data, &input_at(0, 0), &doc);
    let (s, _) =
        run(s, TextToolMessage::PointerMove { center: false, lock_ratio: false }, &mut data, &input_at(1, 1), &doc);
    let (_, _) = run(s, TextToolMessage::DragStop, &mut data, &input_at(1, 1), &doc);
    assert_eq!(data.editing_text.as_ref().unwrap().typesetting.max_width, Some(1));
    assert_eq!(data.editing_text.as_ref().unwrap().typesetting.max_height, Some(1));
}

#[test]
fn click_on_existing_text_opens_it() {
    let mut data = TextToolData::new();
    let doc = DocumentView {
        layers: vec![
            text_layer(3, "far", pt(100, 100), pt(20, 10)),
            text_layer(4, "Hey", pt(5, 5), pt(30, 12)),
            text_layer(6, "under", pt(0, 0), pt(50, 50)),
        ],
        selected: Vec::new(),
        new_layer_parent: 5,
    };
    let input = input_at(10, 10);
    let (s, _) = run(TextToolFsmState::Ready, TextToolMessage::DragStart, &mut data, &input, &doc);
    let (s, responses) = run(s, TextToolMessage::DragStop, &mut data, &input, &doc);
    assert_eq!(s, TextToolFsmState::Editing);
    assert_eq!(data.layer, 4);
    assert_eq!(data.new_text, "Hey");
    let e = data.editing_text.as_ref().unwrap();
    assert_eq!(e.text, "Hey");
    assert_eq!(e.transform, pt(5, 5));
    assert_eq!(e.color, Some(Rgba { r: 1, g: 2, b: 3, a: 255 }));
    assert!(matches!(responses[0], Action::AddTransaction));
    assert!(matches!(responses[1], Action::DisplayEditableTextbox { .. }));
    assert!(matches!(responses[2], Action::SelectLayer { layer: 4 }));
    assert!(matches!(responses[3], Action::BlankRenderedText { layer: 4 }));
    assert!(matches!(responses[4], Action::RunDocumentGraph));
    assert_eq!(responses.len(), 5);
}

#[test]
fn terminating_empty_text_change_deletes_layer() {
    let mut data = editing_session(9, "Hello");
    let (s, responses) = run(
        TextToolFsmState::Editing,
        TextToolMessage::TextChange { new_text: String::new(), is_left_or_right_click: true },
        &mut data,
        &input_at(0, 0),
        &empty_doc(),
    );
    assert_eq!(s, TextToolFsmState::Ready);
    assert!(data.editing_text.is_none());
    assert_eq!(responses.len(), 3);
    assert!(matches!(responses[0], Action::DisplayRemoveEditableTextbox));
    assert!(matches!(responses[1], Action::DeleteLayer { layer: 9 }));
    assert!(matches!(responses[2], Action::RunDocumentGraph));
    assert!(!responses.iter().any(|a| matches!(a, Action::SetRenderedText { .. })));
}

#[test]
fn terminating_text_change_stores_text() {
    let mut data = editing_session(9, "Hel");
    let (s, responses) = run(
        TextToolFsmState::Editing,
        TextToolMessage::TextChange { new_text: "Hello".to_string(), is_left_or_right_click: true },
        &mut data,
        &input_at(0, 0),
        &empty_doc(),
    );
    assert_eq!(s, TextToolFsmState::Ready);
    assert_eq!(data.new_text, "Hello");
    assert!(data.editing_text.is_none());
    assert_eq!(responses.len(), 3);
    assert!(matches!(responses[0], Action::DisplayRemoveEditableTextbox));
    match &responses[1] {
        Action::SetRenderedText { layer, text } => {
            assert_eq!(*layer, 9);
            assert_eq!(text, "Hello");
        }
        other => panic!("unexpected {:?}", other),
    }
    assert!(matches!(responses[2], Action::RunDocumentGraph));
}

#[test]
fn ongoing_text_change_updates_buffer() {
    let mut data = editing_session(9, "H");
    let (s, responses) = run(
        TextToolFsmState::Editing,
        TextToolMessage::TextChange { new_text: "Hi".to_string(), is_left_or_right_click: false },
        &mut data,
        &input_at(0, 0),
        &empty_doc(),
    );
    assert_eq!(s, TextToolFsmState::Editing);
    assert_eq!(data.new_text, "Hi");
    assert!(data.editing_text.is_some());
    assert_eq!(responses.len(), 1);
    assert!(matches!(responses[0], Action::OverlaysDraw));
}

#[test]
fn commit_with_text_requests_finalize() {
    let mut data = editing_session(9, "Hi");
    let (s, responses) =
        run(TextToolFsmState::Editing, TextToolMessage::CommitText, &mut data, &input_at(0, 0), &empty_doc());
    assert_eq!(s, TextToolFsmState::Editing);
    assert_eq!(responses.len(), 1);
    assert!(matches!(responses[0], Action::TriggerTextCommit));
    assert_eq!(data.new_text, "Hi");
}

#[test]
fn commit_with_empty_text_deletes_layer() {
    let mut data = editing_session(9, "");
    let (s, responses) =
        run(TextToolFsmState::Editing, TextToolMessage::CommitText, &mut data, &input_at(0, 0), &empty_doc());
    assert_eq!(s, TextToolFsmState::Ready);
    assert!(matches!(responses[1], Action::DeleteLayer { layer: 9 }));
    assert!(!responses.iter().any(|a| matches!(a, Action::NewTextLayer { .. } | Action::SetRenderedText { .. })));
}

#[test]
fn second_removal_in_one_queue_clears_selection() {
    let data = editing_session(9, "");
    let mut responses = vec![Action::DisplayRemoveEditableTextbox];
    data.set_editing(false, &mut responses);
    assert_eq!(responses.len(), 3);
    assert!(matches!(responses[2], Action::ClearSelection));
}

#[test]
fn unlisted_events_change_nothing() {
    let doc = empty_doc();
    let input = input_at(3, 4);
    let cases = vec![
        (TextToolFsmState::Ready, TextToolMessage::CommitText),
        (TextToolFsmState::Ready, TextToolMessage::DragStop),
        (TextToolFsmState::Placing, TextToolMessage::DragStart),
        (TextToolFsmState::Dragging, TextToolMessage::UpdateBounds { new_text: "x".to_string() }),
        (TextToolFsmState::Ready, TextToolMessage::Interact),
        (TextToolFsmState::Ready, TextToolMessage::TextChange { new_text: "x".to_string(), is_left_or_right_click: true }),
    ];
    for (state, event) in cases {
        let mut data = TextToolData::new();
        data.new_text = "keep".to_string();
        let (s, responses) = run(state, event, &mut data, &input, &doc);
        assert_eq!(s, state);
        assert!(responses.is_empty());
        assert_eq!(data.new_text, "keep");
        assert_eq!(data.layer, ROOT_PARENT);
        assert!(data.editing_text.is_none());
    }
}

#[test]
fn editing_another_layer_closes_the_open_box_first() {
    let mut data = editing_session(1, "old");
    let doc = DocumentView {
        layers: vec![text_layer(1, "old", pt(0, 0), pt(10, 10)), text_layer(2, "new", pt(40, 40), pt(10, 10))],
        selected: vec![2],
        new_layer_parent: 5,
    };
    let (s, responses) = run(TextToolFsmState::Editing, TextToolMessage::EditSelected, &mut data, &input_at(0, 0), &doc);
    assert_eq!(s, TextToolFsmState::Editing);
    assert_eq!(data.layer, 2);
    assert_eq!(data.new_text, "new");
    assert!(matches!(responses[0], Action::DisplayRemoveEditableTextbox));
    let opened: Vec<usize> = (0..responses.len())
        .filter(|&i| matches!(responses[i], Action::DisplayEditableTextbox { .. }))
        .collect();
    assert_eq!(opened, vec![2]);
}

#[test]
fn edit_selected_declines_ambiguous_or_invalid_targets() {
    let layers = || vec![text_layer(1, "a", pt(0, 0), pt(10, 10)), text_layer(2, "b", pt(40, 40), pt(10, 10))];
    let two = DocumentView { layers: layers(), selected: vec![1, 2], new_layer_parent: 5 };
    let mut data = TextToolData::new();
    let (s, responses) = run(TextToolFsmState::Ready, TextToolMessage::EditSelected, &mut data, &input_at(0, 0), &two);
    assert_eq!(s, TextToolFsmState::Ready);
    assert!(responses.is_empty());
    assert!(data.editing_text.is_none());

    let mut root_layers = layers();
    root_layers.push(text_layer(ROOT_PARENT, "root", pt(0, 0), pt(1, 1)));
    let root = DocumentView { layers: root_layers, selected: vec![ROOT_PARENT], new_layer_parent: 5 };
    let (s, responses) = run(TextToolFsmState::Ready, TextToolMessage::EditSelected, &mut data, &input_at(0, 0), &root);
    assert_eq!(s, TextToolFsmState::Ready);
    assert!(responses.is_empty());

    let mut no_text = layers();
    no_text[0].content = None;
    let unreadable = DocumentView { layers: no_text, selected: vec![1], new_layer_parent: 5 };
    let (s, responses) =
        run(TextToolFsmState::Ready, TextToolMessage::EditSelected, &mut data, &input_at(0, 0), &unreadable);
    assert_eq!(s, TextToolFsmState::Ready);
    assert!(responses.is_empty());
    assert!(data.editing_text.is_none());
}

#[test]
fn abort_while_editing_closes_box() {
    let mut data = editing_session(9, "abc");
    data.auto_panning.subscribed = true;
    let (s, responses) = run(TextToolFsmState::Editing, TextToolMessage::Abort, &mut data, &input_at(0, 0), &empty_doc());
    assert_eq!(s, TextToolFsmState::Ready);
    assert!(data.editing_text.is_none());
    assert!(!data.auto_panning.subscribed);
    assert_eq!(responses.len(), 4);
    assert!(matches!(responses[0], Action::FinishTransaction { .. }));
    assert!(matches!(responses[1], Action::ResizeCleanup));
    assert!(matches!(responses[2], Action::UnsubscribeAutoPan));
    assert!(matches!(responses[3], Action::DisplayRemoveEditableTextbox));
}

#[test]
fn pointer_outside_viewport_starts_and_stops_auto_pan() {
    let mut data = TextToolData::new();
    let doc = empty_doc();
    let (s, _) = run(TextToolFsmState::Ready, TextToolMessage::DragStart, &mut data, &input_at(10, 10), &doc);
    let mv = || TextToolMessage::PointerMove { center: false, lock_ratio: false };
    let (s, responses) = run(s, mv(), &mut data, &input_at(900, 10), &doc);
    assert!(data.auto_panning.subscribed);
    assert!(matches!(responses[1], Action::SubscribeAutoPan));
    let (s, responses) =
        run(s, TextToolMessage::PointerOutsideViewport { center: false, lock_ratio: false }, &mut data, &input_at(900, 10), &doc);
    assert_eq!(s, TextToolFsmState::Dragging);
    assert!(matches!(responses[0], Action::ShiftViewport { pointer: MousePosition { x: 900, y: 10 } }));
    let (_, responses) = run(s, mv(), &mut data, &input_at(50, 10), &doc);
    assert!(!data.auto_panning.subscribed);
    assert!(matches!(responses[1], Action::UnsubscribeAutoPan));
}

#[test]
fn modifiers_shape_the_construction_box() {
    let mut data = TextToolData::new();
    let doc = empty_doc();
    let (s, _) = run(TextToolFsmState::Ready, TextToolMessage::DragStart, &mut data, &input_at(5, 5), &doc);
    let (s, _) = run(s, TextToolMessage::PointerMove { center: true, lock_ratio: false }, &mut data, &input_at(8, 9), &doc);
    assert_eq!(data.cached_resize_bounds, [pt(2, 1), pt(8, 9)]);
    let (_, _) = run(s, TextToolMessage::PointerMove { center: false, lock_ratio: true }, &mut data, &input_at(8, 9), &doc);
    assert_eq!(data.cached_resize_bounds, [pt(5, 5), pt(9, 9)]);
}

#[test]
fn editing_overlay_skips_degenerate_measurement() {
    let mut data = editing_session(2, "x");
    let doc = DocumentView { layers: vec![text_layer(2, "x", pt(7, 8), pt(3, 3))], selected: vec![], new_layer_parent: 5 };
    let (_, responses) =
        run(TextToolFsmState::Editing, TextToolMessage::Overlays { live_text_size: pt(0, 12) }, &mut data, &input_at(0, 0), &doc);
    assert_eq!(responses.len(), 1);
    assert!(matches!(responses[0], Action::DisplayEditableTextboxTransform { transform: Point { x: 7, y: 8 } }));
    let (_, responses) =
        run(TextToolFsmState::Editing, TextToolMessage::Overlays { live_text_size: pt(20, 12) }, &mut data, &input_at(0, 0), &doc);
    assert_eq!(responses.len(), 2);
    assert!(matches!(
        responses[1],
        Action::DrawQuad { quad: Quad { origin: Point { x: 7, y: 8 }, size: Point { x: 20, y: 12 } }, filled: true }
    ));
}

#[test]
fn placing_overlay_highlights_intersecting_layers() {
    let mut data = TextToolData::new();
    data.cached_resize_bounds = [pt(0, 0), pt(10, 10)];
    let doc = DocumentView {
        layers: vec![text_layer(1, "a", pt(5, 5), pt(10, 10)), text_layer(2, "b", pt(50, 50), pt(5, 5))],
        selected: vec![],
        new_layer_parent: 5,
    };
    let (_, responses) =
        run(TextToolFsmState::Dragging, TextToolMessage::Overlays { live_text_size: pt(0, 0) }, &mut data, &input_at(0, 0), &doc);
    assert_eq!(responses.len(), 3);
    assert!(matches!(responses[0], Action::DrawQuad { quad: Quad { origin: Point { x: 5, y: 5 }, .. }, filled: true }));
    assert!(matches!(responses[1], Action::DrawQuad { quad: Quad { origin: Point { x: 0, y: 0 }, size: Point { x: 10, y: 10 } }, filled: true }));
    assert!(matches!(responses[2], Action::DrawSnapOverlays));
}

#[test]
fn ready_overlay_outlines_selected_text() {
    let mut data = TextToolData::new();
    let doc = DocumentView {
        layers: vec![text_layer(1, "a", pt(5, 5), pt(10, 10)), text_layer(2, "b", pt(50, 50), pt(5, 5))],
        selected: vec![2, 99],
        new_layer_parent: 5,
    };
    let (_, responses) =
        run(TextToolFsmState::Ready, TextToolMessage::Overlays { live_text_size: pt(0, 0) }, &mut data, &input_at(0, 0), &doc);
    assert_eq!(responses.len(), 2);
    assert!(matches!(responses[0], Action::DrawQuad { quad: Quad { origin: Point { x: 50, y: 50 }, .. }, filled: false }));
}

#[test]
fn working_color_change_refreshes_fill_defaults() {
    let mut data = TextToolData::new();
    let (s, responses) =
        run(TextToolFsmState::Placing, TextToolMessage::WorkingColorChanged, &mut data, &input_at(0, 0), &empty_doc());
    assert_eq!(s, TextToolFsmState::Placing);
    assert!(matches!(
        responses[0],
        Action::UpdateWorkingColors { primary: Rgba { r: 10, .. }, secondary: Rgba { r: 200, .. } }
    ));
}

#[test]
fn tool_updates_options_and_refreshes_hints() {
    let mut tool = TextTool::new();
    let doc = empty_doc();
    let input = input_at(1, 1);
    let mut responses = Vec::new();
    tool.process_message(TextToolMessage::UpdateOptions(TextOptionsUpdate::FontSize(48)), &input, &doc, &mut responses);
    assert_eq!(tool.options.font_size, 48);
    assert_eq!(responses.len(), 1);
    let mut responses = Vec::new();
    tool.process_message(
        TextToolMessage::UpdateOptions(TextOptionsUpdate::Font { family: "Inter".to_string(), style: "Bold".to_string() }),
        &input,
        &doc,
        &mut responses,
    );
    assert_eq!(tool.options.font_name, "Inter");
    assert_eq!(responses.len(), 2);
    let mut responses = Vec::new();
    tool.process_message(
        TextToolMessage::UpdateOptions(TextOptionsUpdate::FillColor(Some(Rgba { r: 9, g: 9, b: 9, a: 9 }))),
        &input,
        &doc,
        &mut responses,
    );
    assert_eq!(tool.options.fill.color_type, ToolColorType::Custom);
    assert_eq!(tool.options.fill.active_color(), Some(Rgba { r: 9, g: 9, b: 9, a: 9 }));

    let mut responses = Vec::new();
    tool.process_message(TextToolMessage::DragStart, &input, &doc, &mut responses);
    assert_eq!(tool.fsm_state, TextToolFsmState::Placing);
    assert_eq!(responses.len(), 2);
    match &responses[0] {
        Action::UpdateInputHints { hints } => {
            assert_eq!(hints.len(), 4);
            assert_eq!(hints[1].label, HintLabel::Cancel);
            assert_eq!(hints[1].label.text(), "Cancel");
        }
        other => panic!("unexpected {:?}", other),
    }
    assert!(matches!(responses[1], Action::UpdateMouseCursor { cursor: MouseCursorIcon::Text }));
    assert_eq!(tool.actions(), vec![MessageKind::DragStop, MessageKind::Abort, MessageKind::PointerMove]);

    let mut responses = Vec::new();
    tool.process_message(TextToolMessage::PointerMove { center: false, lock_ratio: false }, &input_at(30, 30), &doc, &mut responses);
    assert_eq!(tool.fsm_state, TextToolFsmState::Dragging);
    assert!(matches!(responses.last().unwrap(), Action::UpdateMouseCursor { cursor: MouseCursorIcon::Crosshair }));
}

#[test]
fn tool_defaults_and_metadata() {
    let tool = TextTool::new();
    assert_eq!(tool.icon_name(), "VectorTextTool");
    assert_eq!(tool.tooltip(), "Text Tool");
    assert_eq!(tool.options.font_size, 24);
    assert_eq!(tool.options.line_height_ratio, 120);
    assert_eq!(tool.options.font_style, "Normal (400)");
    assert_eq!(tool.options.fill.active_color(), Some(Rgba { r: 0, g: 0, b: 0, a: 255 }));
    assert!(matches!(tool.event_to_message_map(ToolEvent::ToolAbort), Some(TextToolMessage::Abort)));
    assert!(tool.event_to_message_map(ToolEvent::CanvasTransformed).is_none());
    assert_eq!(tool.actions(), vec![MessageKind::DragStart, MessageKind::PointerMove]);
}
