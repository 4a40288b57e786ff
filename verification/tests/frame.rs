use egui_winit_platform::{
    egui_to_winit_cursor_icon, handle_clipboard, handle_links, question_of, CursorIcon,
    CursorShape, CursorUpdate, DeviceId, ElementState, FrameActions, Host, Ime, InputEvent, Key,
    KeyEvent, LogicalKey, Modifiers, ModifiersState, MouseButton, MouseScrollDelta, OpenUrl,
    Platform, PlatformDescriptor, PlatformEvent, PlatformFamily, PlatformOutput, Point, Question,
    RawInput, Scalar, ScreenRect, Touch, TouchPhase,
};

fn scalar(value: f64) -> Scalar {
    Scalar { bits: value.to_bits() }
}

fn frame_platform(clipboard: bool, links: bool) -> Platform {
    Platform::new(
        PlatformDescriptor {
            physical_width: 320,
            physical_height: 200,
            scale_factor: scalar(1.0),
            font_definitions: egui::FontDefinitions::default(),
            style: egui::Style::default(),
        },
        Host { family: PlatformFamily::Other, clipboard, links },
    )
}

fn output(cursor_icon: CursorIcon, copied_text: &str, url: Option<&str>) -> PlatformOutput {
    PlatformOutput {
        cursor_icon,
        open_url: url.map(|url| OpenUrl { url: url.to_string(), new_tab: false }),
        copied_text: copied_text.to_string(),
    }
}

fn every_kind_of_event() -> Vec<PlatformEvent> {
    let point = Point { x: scalar(1.0), y: scalar(1.0) };
    vec![
        PlatformEvent::Resized { width: 1, height: 1 },
        PlatformEvent::ScaleFactorChanged { scale_factor: scalar(1.0) },
        PlatformEvent::MouseInput { state: ElementState::Pressed, button: MouseButton::Left },
        PlatformEvent::MouseWheel { delta: MouseScrollDelta::PixelDelta(point) },
        PlatformEvent::CursorMoved { position: point },
        PlatformEvent::CursorLeft,
        PlatformEvent::ModifiersChanged(ModifiersState { bits: 0 }),
        PlatformEvent::Ime(Ime::Enabled),
        PlatformEvent::KeyboardInput(KeyEvent {
            logical_key: LogicalKey::Character("a".to_string()),
            text: None,
            state: ElementState::Pressed,
        }),
        PlatformEvent::Touch(Touch {
            device_id: DeviceId { raw: 1 },
            phase: TouchPhase::Started,
            location: point,
            force: None,
            id: 1,
        }),
        PlatformEvent::Other,
    ]
}

#[test]
fn begin_frame_hands_over_what_is_pending() {
    let mut platform = frame_platform(true, true);
    platform.update_time(scalar(1.5));
    let _ = platform.handle_event(&PlatformEvent::CursorLeft);
    let _ = platform.handle_event(&PlatformEvent::ModifiersChanged(ModifiersState {
        bits: winit::keyboard::ModifiersState::ALT.bits(),
    }));
    let alt = Modifiers { alt: true, ctrl: false, shift: false, mac_cmd: false, command: false };
    let input = platform.begin_frame();
    assert_eq!(
        input,
        RawInput {
            screen_rect: Some(ScreenRect { width: 320, height: 200, scale: scalar(1.0) }),
            time: Some(scalar(1.5)),
            modifiers: alt,
            events: vec![InputEvent::PointerGone],
        }
    );
    assert_eq!(
        platform.raw_input(),
        &RawInput { screen_rect: None, time: None, modifiers: alt, events: vec![] }
    );
}

#[test]
fn second_begin_frame_is_given_nothing() {
    let mut platform = frame_platform(true, true);
    let _ = platform.handle_event(&PlatformEvent::CursorLeft);
    let _ = platform.handle_event(&PlatformEvent::Ime(Ime::Enabled));
    let first = platform.begin_frame();
    let second = platform.begin_frame();
    assert_eq!(first.events.len(), 2);
    assert_eq!(second, RawInput::new());
    let third = platform.begin_frame();
    assert_eq!(third, second);
}

#[test]
fn events_after_begin_frame_wait_for_the_next_frame() {
    let mut platform = frame_platform(true, true);
    let _ = platform.handle_event(&PlatformEvent::CursorLeft);
    let first = platform.begin_frame();
    let _ = platform.handle_event(&PlatformEvent::Ime(Ime::Enabled));
    let _ = platform.end_frame(&output(CursorIcon::Default, "", None), false);
    let second = platform.begin_frame();
    assert_eq!(first.events, vec![InputEvent::PointerGone]);
    assert_eq!(second.events, vec![InputEvent::CompositionStart]);
}

#[test]
fn update_time_sets_the_time_of_the_next_frame() {
    let mut platform = frame_platform(true, true);
    platform.update_time(scalar(0.25));
    assert_eq!(platform.raw_input().time, Some(scalar(0.25)));
    platform.update_time(scalar(0.125));
    assert_eq!(platform.raw_input().time, Some(scalar(0.125)));
    assert_eq!(f64::from_bits(platform.raw_input().time.unwrap().bits), 0.125);
    assert!(platform.raw_input().events.is_empty());
}

#[test]
fn raw_input_mut_lets_the_caller_add_events() {
    let mut platform = frame_platform(true, true);
    let _ = platform.handle_event(&PlatformEvent::CursorLeft);
    let injected = InputEvent::Key {
        key: Key::F5,
        pressed: true,
        repeat: true,
        modifiers: Modifiers::default(),
    };
    platform.raw_input_mut().events.push(injected.clone());
    platform.raw_input_mut().screen_rect = None;
    let _ = platform.handle_event(&PlatformEvent::Ime(Ime::Enabled));
    let input = platform.begin_frame();
    assert_eq!(input.screen_rect, None);
    assert_eq!(
        input.events,
        vec![InputEvent::PointerGone, injected, InputEvent::CompositionStart]
    );
}

#[test]
fn end_frame_hides_the_cursor_and_sets_no_shape() {
    let mut platform = frame_platform(true, true);
    let hidden = output(CursorIcon::Hidden, "", None);
    let actions = platform.end_frame(&hidden, true);
    assert_eq!(actions.cursor, Some(CursorUpdate::Hide));
    let _ = platform.handle_event(&PlatformEvent::CursorLeft);
    let actions = platform.end_frame(&hidden, true);
    assert_eq!(actions.cursor, Some(CursorUpdate::Hide));
}

#[test]
fn end_frame_sets_the_shape_while_the_pointer_is_inside() {
    let mut platform = frame_platform(true, true);
    let hand = output(CursorIcon::PointingHand, "", None);
    let actions = platform.end_frame(&hand, true);
    assert_eq!(actions.cursor, Some(CursorUpdate::Show(Some(CursorShape::Pointer))));
    let _ = platform.handle_event(&PlatformEvent::CursorLeft);
    let actions = platform.end_frame(&hand, true);
    assert_eq!(actions.cursor, Some(CursorUpdate::Show(None)));
    let point = Point { x: scalar(1.0), y: scalar(1.0) };
    let _ = platform.handle_event(&PlatformEvent::CursorMoved { position: point });
    let actions = platform.end_frame(&hand, true);
    assert_eq!(actions.cursor, Some(CursorUpdate::Show(Some(CursorShape::Pointer))));
}

#[test]
fn end_frame_without_a_window_leaves_the_cursor_alone() {
    let platform = frame_platform(true, true);
    for icon in [CursorIcon::Hidden, CursorIcon::Default, CursorIcon::Text] {
        assert_eq!(platform.end_frame(&output(icon, "", None), false).cursor, None);
    }
}

#[test]
fn end_frame_forwards_copied_text_and_links() {
    let platform = frame_platform(true, true);
    let actions =
        platform.end_frame(&output(CursorIcon::Default, "copied", Some("https://e.test/")), false);
    assert_eq!(
        actions,
        FrameActions {
            cursor: None,
            clipboard: Some("copied".to_string()),
            open_url: Some("https://e.test/".to_string()),
        }
    );
    let actions = platform.end_frame(&output(CursorIcon::Default, "", None), false);
    assert_eq!(actions, FrameActions { cursor: None, clipboard: None, open_url: None });
}

#[test]
fn end_frame_without_capabilities_forwards_nothing() {
    let platform = frame_platform(false, false);
    let actions =
        platform.end_frame(&output(CursorIcon::Default, "copied", Some("https://e.test/")), true);
    assert_eq!(
        actions,
        FrameActions {
            cursor: Some(CursorUpdate::Show(Some(CursorShape::Default))),
            clipboard: None,
            open_url: None,
        }
    );
}

#[test]
fn end_frame_leaves_the_pending_input_alone() {
    let mut platform = frame_platform(true, true);
    let _ = platform.handle_event(&PlatformEvent::CursorLeft);
    let before = platform.raw_input().clone();
    let _ = platform.end_frame(&output(CursorIcon::Wait, "x", Some("y")), true);
    assert_eq!(platform.raw_input(), &before);
}

#[test]
fn copied_text_goes_to_a_clipboard_only() {
    let copied = output(CursorIcon::Default, "text", None);
    let nothing = output(CursorIcon::Default, "", None);
    assert_eq!(handle_clipboard(&copied, true), Some("text".to_string()));
    assert_eq!(handle_clipboard(&copied, false), None);
    assert_eq!(handle_clipboard(&nothing, true), None);
    assert_eq!(handle_clipboard(&nothing, false), None);
}

#[test]
fn links_are_opened_only_where_they_can_be() {
    let mut asked = output(CursorIcon::Default, "", Some("https://e.test/a"));
    assert_eq!(handle_links(&asked, true), Some("https://e.test/a".to_string()));
    assert_eq!(handle_links(&asked, false), None);
    asked.open_url = Some(OpenUrl { url: "https://e.test/b".to_string(), new_tab: true });
    assert_eq!(handle_links(&asked, true), Some("https://e.test/b".to_string()));
    let nothing = output(CursorIcon::Default, "", None);
    assert_eq!(handle_links(&nothing, true), None);
    assert_eq!(handle_links(&nothing, false), None);
}

#[test]
fn cursor_table_maps_every_icon() {
    let table = [
        (CursorIcon::Default, Some(CursorShape::Default)),
        (CursorIcon::Hidden, None),
        (CursorIcon::ContextMenu, Some(CursorShape::ContextMenu)),
        (CursorIcon::Help, Some(CursorShape::Help)),
        (CursorIcon::PointingHand, Some(CursorShape::Pointer)),
        (CursorIcon::Progress, Some(CursorShape::Progress)),
        (CursorIcon::Wait, Some(CursorShape::Wait)),
        (CursorIcon::Cell, Some(CursorShape::Cell)),
        (CursorIcon::Crosshair, Some(CursorShape::Crosshair)),
        (CursorIcon::Text, Some(CursorShape::Text)),
        (CursorIcon::VerticalText, Some(CursorShape::VerticalText)),
        (CursorIcon::Alias, Some(CursorShape::Alias)),
        (CursorIcon::Copy, Some(CursorShape::Copy)),
        (CursorIcon::Move, Some(CursorShape::Move)),
        (CursorIcon::NoDrop, Some(CursorShape::NoDrop)),
        (CursorIcon::NotAllowed, Some(CursorShape::NotAllowed)),
        (CursorIcon::Grab, Some(CursorShape::Grab)),
        (CursorIcon::Grabbing, Some(CursorShape::Grabbing)),
        (CursorIcon::AllScroll, Some(CursorShape::AllScroll)),
        (CursorIcon::ResizeHorizontal, Some(CursorShape::EwResize)),
        (CursorIcon::ResizeNeSw, Some(CursorShape::NeswResize)),
        (CursorIcon::ResizeNwSe, Some(CursorShape::NwseResize)),
        (CursorIcon::ResizeVertical, Some(CursorShape::NsResize)),
        (CursorIcon::ResizeEast, Some(CursorShape::EResize)),
        (CursorIcon::ResizeSouthEast, Some(CursorShape::SeResize)),
        (CursorIcon::ResizeSouth, Some(CursorShape::SResize)),
        (CursorIcon::ResizeSouthWest, Some(CursorShape::SwResize)),
        (CursorIcon::ResizeWest, Some(CursorShape::WResize)),
        (CursorIcon::ResizeNorthWest, Some(CursorShape::NwResize)),
        (CursorIcon::ResizeNorth, Some(CursorShape::NResize)),
        (CursorIcon::ResizeNorthEast, Some(CursorShape::NeResize)),
        (CursorIcon::ResizeColumn, Some(CursorShape::ColResize)),
        (CursorIcon::ResizeRow, Some(CursorShape::RowResize)),
        (CursorIcon::ZoomIn, Some(CursorShape::ZoomIn)),
        (CursorIcon::ZoomOut, Some(CursorShape::ZoomOut)),
    ];
    assert_eq!(table.len(), egui::CursorIcon::ALL.len());
    for (icon, shape) in table {
        assert_eq!(egui_to_winit_cursor_icon(icon), shape);
    }
}

#[test]
fn capture_questions_go_by_the_kind_of_event() {
    let expected = [
        None,
        None,
        Some(Question::WantsPointerInput),
        Some(Question::WantsPointerInput),
        Some(Question::IsUsingPointer),
        None,
        Some(Question::WantsKeyboardInput),
        Some(Question::WantsKeyboardInput),
        Some(Question::WantsKeyboardInput),
        Some(Question::IsUsingPointer),
        None,
    ];
    for (event, question) in every_kind_of_event().iter().zip(expected) {
        assert_eq!(question_of(event), question, "{:?}", event);
    }
}

#[test]
fn idle_gui_captures_nothing() {
    let platform = frame_platform(true, true);
    for event in every_kind_of_event() {
        assert!(!platform.captures_event(&event), "{:?}", event);
    }
}

#[test]
fn gui_with_a_focused_widget_captures_the_keyboard() {
    let platform = frame_platform(true, true);
    let context = platform.context();
    context.memory_mut(|memory| memory.request_focus(egui::Id::new("field")));
    assert!(context.wants_keyboard_input());
    let expected = [false, false, false, false, false, false, true, true, true, false, false];
    for (event, captured) in every_kind_of_event().iter().zip(expected) {
        assert_eq!(platform.captures_event(event), captured, "{:?}", event);
    }
}

#[test]
fn context_is_shared_with_the_caller() {
    let platform = frame_platform(true, true);
    let first = platform.context();
    let second = platform.context();
    first.memory_mut(|memory| memory.request_focus(egui::Id::new("shared")));
    assert!(second.wants_keyboard_input());
    assert!(platform.captures_event(&PlatformEvent::Ime(Ime::Enabled)));
}

#[test]
fn context_is_given_the_style_of_the_descriptor() {
    let mut style = egui::Style::default();
    style.animation_time = 7.0;
    style.explanation_tooltips = true;
    let platform = Platform::new(
        PlatformDescriptor {
            physical_width: 1,
            physical_height: 1,
            scale_factor: scalar(1.0),
            font_definitions: egui::FontDefinitions::default(),
            style: style.clone(),
        },
        Host { family: PlatformFamily::Other, clipboard: false, links: false },
    );
    assert_eq!(*platform.context().style(), style);
}

#[test]
fn context_runs_a_frame_on_what_the_platform_collected() {
    let mut platform = frame_platform(true, true);
    let _ = platform.handle_event(&PlatformEvent::Resized { width: 640, height: 480 });
    let batch = platform.begin_frame();
    let rect = batch.screen_rect.unwrap();
    let scale = f64::from_bits(rect.scale.bits) as f32;
    let input = egui::RawInput {
        screen_rect: Some(egui::Rect::from_min_size(
            egui::Pos2::default(),
            egui::vec2(rect.width as f32, rect.height as f32) / scale,
        )),
        ..Default::default()
    };
    let context = platform.context();
    context.begin_frame(input);
    assert_eq!(context.screen_rect().size(), egui::vec2(640.0, 480.0));
    let full = context.end_frame();
    assert_eq!(full.platform_output.cursor_icon, egui::CursorIcon::Default);
}

#[test]
fn context_is_the_same_handle_for_as_long_as_the_platform_lives() {
    let mut platform = frame_platform(true, true);
    let first = platform.context();
    for event in every_kind_of_event() {
        let _ = platform.handle_event(&event);
    }
    platform.update_time(scalar(1.0));
    let _ = platform.begin_frame();
    platform.raw_input_mut().time = None;
    platform.paste("text".to_string());
    let _ = platform.end_frame(&output(CursorIcon::Default, "", None), false);
    assert!(first == platform.context());
    assert!(platform.context() == platform.context());
    let other = frame_platform(true, true);
    assert!(first != other.context());
}
