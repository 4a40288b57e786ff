use egui_winit_platform::modifiers::{ALT, CONTROL, SHIFT, SUPER};
use egui_winit_platform::text::{printable_char, typed_text};
use egui_winit_platform::{
    winit_to_egui_key_code, winit_to_egui_modifiers, ElementState, Host, InputEvent, Key,
    KeyEvent, LogicalKey, Modifiers, ModifiersState, NamedKey, Outcome, Platform,
    PlatformDescriptor, PlatformEvent, PlatformFamily, Scalar,
};
use winit::keyboard::ModifiersState as Flags;

fn keyboard_platform(family: PlatformFamily, clipboard: bool) -> Platform {
    Platform::new(
        PlatformDescriptor {
            physical_width: 800,
            physical_height: 600,
            scale_factor: Scalar { bits: 1.0f64.to_bits() },
            font_definitions: egui::FontDefinitions::default(),
            style: egui::Style::default(),
        },
        Host { family, clipboard, links: false },
    )
}

fn state(flags: Flags) -> ModifiersState {
    ModifiersState { bits: flags.bits() }
}

fn hold(platform: &mut Platform, flags: Flags) {
    let _ = platform.handle_event(&PlatformEvent::ModifiersChanged(state(flags)));
}

fn character(key: &str, text: Option<&str>, state: ElementState) -> PlatformEvent {
    PlatformEvent::KeyboardInput(KeyEvent {
        logical_key: LogicalKey::Character(key.to_string()),
        text: text.map(|text| text.to_string()),
        state,
    })
}

fn named(key: NamedKey, text: Option<&str>, state: ElementState) -> PlatformEvent {
    PlatformEvent::KeyboardInput(KeyEvent {
        logical_key: LogicalKey::Named(key),
        text: text.map(|text| text.to_string()),
        state,
    })
}

fn key(key: Key, pressed: bool, modifiers: Modifiers) -> InputEvent {
    InputEvent::Key { key, pressed, repeat: false, modifiers }
}

const CTRL: Modifiers =
    Modifiers { alt: false, ctrl: true, shift: false, mac_cmd: false, command: true };

#[test]
fn typing_a_letter_gives_its_text_and_then_its_key() {
    let mut platform = keyboard_platform(PlatformFamily::Other, true);
    let outcome = platform.handle_event(&character("a", Some("a"), ElementState::Pressed));
    assert_eq!(outcome, Outcome::Done);
    let outcome = platform.handle_event(&character("a", None, ElementState::Released));
    assert_eq!(outcome, Outcome::Done);
    assert_eq!(
        platform.raw_input().events,
        vec![
            InputEvent::Text("a".to_string()),
            key(Key::A, true, Modifiers::default()),
            key(Key::A, false, Modifiers::default()),
        ]
    );
}

#[test]
fn typing_with_shift_stamps_the_key_with_shift() {
    let mut platform = keyboard_platform(PlatformFamily::Other, true);
    hold(&mut platform, Flags::SHIFT);
    let _ = platform.handle_event(&character("A", Some("A"), ElementState::Pressed));
    let shift = Modifiers { alt: false, ctrl: false, shift: true, mac_cmd: false, command: false };
    assert_eq!(
        platform.raw_input().events,
        vec![InputEvent::Text("A".to_string()), key(Key::A, true, shift)]
    );
}

#[test]
fn text_of_a_key_without_a_code_is_still_typed() {
    let mut platform = keyboard_platform(PlatformFamily::Other, true);
    let _ = platform.handle_event(&character("é", Some("é"), ElementState::Pressed));
    let _ = platform.handle_event(&character("ab", Some("ab"), ElementState::Pressed));
    assert_eq!(
        platform.raw_input().events,
        vec![InputEvent::Text("é".to_string()), InputEvent::Text("ab".to_string())]
    );
}

#[test]
fn control_character_is_not_typed() {
    let mut platform = keyboard_platform(PlatformFamily::Other, true);
    let _ = platform.handle_event(&named(NamedKey::Enter, Some("\r"), ElementState::Pressed));
    let _ =
        platform.handle_event(&named(NamedKey::Backspace, Some("\u{8}"), ElementState::Pressed));
    let _ = platform.handle_event(&named(NamedKey::Delete, Some("\u{7f}"), ElementState::Pressed));
    let _ = platform.handle_event(&named(NamedKey::Other, Some("a\u{85}b"), ElementState::Pressed));
    let _ = platform.handle_event(&character("b", Some("ab\u{1b}"), ElementState::Pressed));
    assert_eq!(
        platform.raw_input().events,
        vec![
            key(Key::Enter, true, Modifiers::default()),
            key(Key::Backspace, true, Modifiers::default()),
            key(Key::Delete, true, Modifiers::default()),
            key(Key::B, true, Modifiers::default()),
        ]
    );
}

#[test]
fn private_use_code_point_is_not_typed() {
    let mut platform = keyboard_platform(PlatformFamily::Other, true);
    for text in ["\u{e000}", "\u{f8ff}", "x\u{f0000}", "\u{ffffd}y", "\u{100000}", "\u{10fffd}"] {
        let _ = platform.handle_event(&named(NamedKey::Other, Some(text), ElementState::Pressed));
    }
    assert!(platform.raw_input().events.is_empty());
}

#[test]
fn text_at_the_edges_of_the_private_use_areas_is_typed() {
    let mut platform = keyboard_platform(PlatformFamily::Other, true);
    for text in ["\u{d7ff}", "\u{f900}", "\u{effff}", "\u{ffffe}", "\u{fffff}", "\u{10fffe}"] {
        let _ = platform.handle_event(&named(NamedKey::Other, Some(text), ElementState::Pressed));
    }
    assert_eq!(platform.raw_input().events.len(), 6);
}

#[test]
fn empty_text_is_not_typed() {
    let mut platform = keyboard_platform(PlatformFamily::Other, true);
    let _ = platform.handle_event(&named(NamedKey::Other, Some(""), ElementState::Pressed));
    assert!(platform.raw_input().events.is_empty());
}

#[test]
fn text_is_not_typed_while_control_is_down() {
    let mut platform = keyboard_platform(PlatformFamily::Other, true);
    hold(&mut platform, Flags::CONTROL);
    let _ = platform.handle_event(&character("a", Some("a"), ElementState::Pressed));
    assert_eq!(platform.raw_input().events, vec![key(Key::A, true, CTRL)]);
}

#[test]
fn text_is_not_typed_while_command_is_down_on_a_mac() {
    let mut platform = keyboard_platform(PlatformFamily::Mac, true);
    hold(&mut platform, Flags::SUPER);
    let _ = platform.handle_event(&character("a", Some("a"), ElementState::Pressed));
    let command =
        Modifiers { alt: false, ctrl: false, shift: false, mac_cmd: true, command: true };
    assert_eq!(platform.raw_input().events, vec![key(Key::A, true, command)]);
}

#[test]
fn text_is_typed_while_super_is_down_elsewhere() {
    let mut platform = keyboard_platform(PlatformFamily::Other, true);
    hold(&mut platform, Flags::SUPER);
    let _ = platform.handle_event(&character("a", Some("a"), ElementState::Pressed));
    assert_eq!(
        platform.raw_input().events,
        vec![InputEvent::Text("a".to_string()), key(Key::A, true, Modifiers::default())]
    );
}

#[test]
fn control_c_copies_and_nothing_else() {
    for letter in ["c", "C"] {
        let mut platform = keyboard_platform(PlatformFamily::Other, true);
        hold(&mut platform, Flags::CONTROL);
        let outcome = platform.handle_event(&character(letter, Some("c"), ElementState::Pressed));
        assert_eq!(outcome, Outcome::Done);
        assert_eq!(platform.raw_input().events, vec![InputEvent::Copy]);
    }
}

#[test]
fn control_x_cuts_and_nothing_else() {
    let mut platform = keyboard_platform(PlatformFamily::Other, true);
    hold(&mut platform, Flags::CONTROL);
    let outcome = platform.handle_event(&character("x", Some("\u{18}"), ElementState::Pressed));
    assert_eq!(outcome, Outcome::Done);
    assert_eq!(platform.raw_input().events, vec![InputEvent::Cut]);
}

#[test]
fn control_v_asks_for_the_clipboard() {
    let mut platform = keyboard_platform(PlatformFamily::Other, true);
    hold(&mut platform, Flags::CONTROL);
    let outcome = platform.handle_event(&character("v", Some("v"), ElementState::Pressed));
    assert_eq!(outcome, Outcome::PasteRequested);
    assert!(platform.raw_input().events.is_empty());
    platform.paste("from the clipboard\n".to_string());
    assert_eq!(
        platform.raw_input().events,
        vec![InputEvent::Text("from the clipboard\n".to_string())]
    );
}

#[test]
fn control_v_without_a_clipboard_does_nothing() {
    let mut platform = keyboard_platform(PlatformFamily::Other, false);
    hold(&mut platform, Flags::CONTROL);
    let outcome = platform.handle_event(&character("v", Some("v"), ElementState::Pressed));
    assert_eq!(outcome, Outcome::Done);
    assert!(platform.raw_input().events.is_empty());
}

#[test]
fn shortcut_keys_coming_up_are_plain_keys() {
    let mut platform = keyboard_platform(PlatformFamily::Other, true);
    hold(&mut platform, Flags::CONTROL);
    for letter in ["c", "x", "v"] {
        let outcome = platform.handle_event(&character(letter, None, ElementState::Released));
        assert_eq!(outcome, Outcome::Done);
    }
    assert_eq!(
        platform.raw_input().events,
        vec![key(Key::C, false, CTRL), key(Key::X, false, CTRL), key(Key::V, false, CTRL)]
    );
}

#[test]
fn shortcut_letters_without_control_are_plain_keys() {
    let mut platform = keyboard_platform(PlatformFamily::Mac, true);
    hold(&mut platform, Flags::SUPER);
    let outcome = platform.handle_event(&character("c", None, ElementState::Pressed));
    assert_eq!(outcome, Outcome::Done);
    let command =
        Modifiers { alt: false, ctrl: false, shift: false, mac_cmd: true, command: true };
    assert_eq!(platform.raw_input().events, vec![key(Key::C, true, command)]);
}

#[test]
fn unknown_keys_are_dropped() {
    let mut platform = keyboard_platform(PlatformFamily::Other, true);
    for event in [
        named(NamedKey::Other, None, ElementState::Pressed),
        character("-", None, ElementState::Pressed),
        character(" ", None, ElementState::Pressed),
        character("", None, ElementState::Pressed),
        character("ab", None, ElementState::Pressed),
        PlatformEvent::KeyboardInput(KeyEvent {
            logical_key: LogicalKey::Unidentified,
            text: None,
            state: ElementState::Pressed,
        }),
        PlatformEvent::KeyboardInput(KeyEvent {
            logical_key: LogicalKey::Dead,
            text: None,
            state: ElementState::Released,
        }),
    ] {
        let outcome = platform.handle_event(&event);
        assert_eq!(outcome, Outcome::Done);
    }
    assert!(platform.raw_input().events.is_empty());
}

#[test]
fn key_table_knows_the_navigation_keys() {
    let table = [
        (NamedKey::Escape, Some(Key::Escape)),
        (NamedKey::Insert, Some(Key::Insert)),
        (NamedKey::Home, Some(Key::Home)),
        (NamedKey::Delete, Some(Key::Delete)),
        (NamedKey::End, Some(Key::End)),
        (NamedKey::PageDown, Some(Key::PageDown)),
        (NamedKey::PageUp, Some(Key::PageUp)),
        (NamedKey::ArrowLeft, Some(Key::ArrowLeft)),
        (NamedKey::ArrowUp, Some(Key::ArrowUp)),
        (NamedKey::ArrowRight, Some(Key::ArrowRight)),
        (NamedKey::ArrowDown, Some(Key::ArrowDown)),
        (NamedKey::Backspace, Some(Key::Backspace)),
        (NamedKey::Enter, Some(Key::Enter)),
        (NamedKey::Tab, Some(Key::Tab)),
        (NamedKey::Space, Some(Key::Space)),
        (NamedKey::Other, None),
    ];
    for (named, expected) in table {
        assert_eq!(winit_to_egui_key_code(&LogicalKey::Named(named)), expected);
    }
}

#[test]
fn key_table_knows_the_digits_and_the_letters_in_either_case() {
    let digits = [
        Key::Num0,
        Key::Num1,
        Key::Num2,
        Key::Num3,
        Key::Num4,
        Key::Num5,
        Key::Num6,
        Key::Num7,
        Key::Num8,
        Key::Num9,
    ];
    for (digit, expected) in ('0'..='9').zip(digits) {
        let key = LogicalKey::Character(digit.to_string());
        assert_eq!(winit_to_egui_key_code(&key), Some(expected));
    }
    let letters = [
        Key::A,
        Key::B,
        Key::C,
        Key::D,
        Key::E,
        Key::F,
        Key::G,
        Key::H,
        Key::I,
        Key::J,
        Key::K,
        Key::L,
        Key::M,
        Key::N,
        Key::O,
        Key::P,
        Key::Q,
        Key::R,
        Key::S,
        Key::T,
        Key::U,
        Key::V,
        Key::W,
        Key::X,
        Key::Y,
        Key::Z,
    ];
    for (letter, expected) in ('a'..='z').zip(letters) {
        let lower = LogicalKey::Character(letter.to_string());
        let upper = LogicalKey::Character(letter.to_ascii_uppercase().to_string());
        assert_eq!(winit_to_egui_key_code(&lower), Some(expected));
        assert_eq!(winit_to_egui_key_code(&upper), Some(expected));
    }
}

#[test]
fn key_table_knows_nothing_else() {
    for text in ["", "ab", "00", "-", "=", " ", "é", "/", ":", "@", "[", "`", "{", "\u{ff21}"] {
        let key = LogicalKey::Character(text.to_string());
        assert_eq!(winit_to_egui_key_code(&key), None);
    }
    assert_eq!(winit_to_egui_key_code(&LogicalKey::Unidentified), None);
    assert_eq!(winit_to_egui_key_code(&LogicalKey::Dead), None);
}

#[test]
fn modifiers_read_the_flags_of_the_window_system() {
    let other = PlatformFamily::Other;
    let none = Modifiers::default();
    assert_eq!(winit_to_egui_modifiers(state(Flags::empty()), other), none);
    assert_eq!(
        winit_to_egui_modifiers(state(Flags::SHIFT), other),
        Modifiers { shift: true, ..none }
    );
    assert_eq!(winit_to_egui_modifiers(state(Flags::ALT), other), Modifiers { alt: true, ..none });
    assert_eq!(
        winit_to_egui_modifiers(state(Flags::CONTROL), other),
        Modifiers { ctrl: true, command: true, ..none }
    );
    assert_eq!(winit_to_egui_modifiers(state(Flags::SUPER), other), none);
    assert_eq!(
        winit_to_egui_modifiers(state(Flags::all()), other),
        Modifiers { alt: true, ctrl: true, shift: true, mac_cmd: false, command: true }
    );
}

#[test]
fn modifiers_on_a_mac_take_super_for_command() {
    let mac = PlatformFamily::Mac;
    let none = Modifiers::default();
    assert_eq!(winit_to_egui_modifiers(state(Flags::empty()), mac), none);
    assert_eq!(
        winit_to_egui_modifiers(state(Flags::CONTROL), mac),
        Modifiers { ctrl: true, ..none }
    );
    assert_eq!(
        winit_to_egui_modifiers(state(Flags::SUPER), mac),
        Modifiers { mac_cmd: true, command: true, ..none }
    );
    assert_eq!(
        winit_to_egui_modifiers(state(Flags::SHIFT | Flags::ALT), mac),
        Modifiers { alt: true, shift: true, ..none }
    );
}

#[test]
fn modifier_flags_are_those_of_the_window_system() {
    assert_eq!(SHIFT, Flags::SHIFT.bits());
    assert_eq!(CONTROL, Flags::CONTROL.bits());
    assert_eq!(ALT, Flags::ALT.bits());
    assert_eq!(SUPER, Flags::SUPER.bits());
}

#[test]
fn modifiers_ignore_unknown_flags() {
    let odd = ModifiersState { bits: 1 | 2 | 8 | 16 | 0x40 | 0x1000 | 0x8000_0000 };
    assert_eq!(winit_to_egui_modifiers(odd, PlatformFamily::Other), Modifiers::default());
    assert_eq!(winit_to_egui_modifiers(odd, PlatformFamily::Mac), Modifiers::default());
}

#[test]
fn printable_characters_are_neither_control_nor_private_use() {
    for c in ['a', ' ', '~', '\u{a0}', 'é', '你', '\u{d7ff}', '\u{f900}', '\u{10ffff}'] {
        assert!(printable_char(c), "{:?}", c);
    }
    for c in [
        '\0', '\t', '\n', '\r', '\u{1b}', '\u{1f}', '\u{7f}', '\u{80}', '\u{9f}', '\u{e000}',
        '\u{f8ff}', '\u{f0000}', '\u{ffffd}', '\u{100000}', '\u{10fffd}',
    ] {
        assert!(!printable_char(c), "{:?}", c);
    }
}

#[test]
fn typed_text_is_not_empty_and_all_printable() {
    assert!(typed_text("a"));
    assert!(typed_text("hello, world"));
    assert!(typed_text("你好"));
    assert!(!typed_text(""));
    assert!(!typed_text("\n"));
    assert!(!typed_text("tab\there"));
    assert!(!typed_text("\u{e000}"));
    assert!(!typed_text("end\u{7f}"));
}
