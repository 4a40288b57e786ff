//! What the adapter is, and what each event does to it, as contracts read
//! it.
use crate::devices::{device_number, register};
use crate::event::{
    DeviceId, ElementState, Ime, KeyEvent, MouseButton, MouseScrollDelta, PlatformEvent, Touch,
};
use crate::input::{InputEvent, PointerButton, RawInputView, TouchDeviceId, TouchId};
use crate::keys::{key_code, Key};
use crate::modifiers::{modifiers_of, Modifiers, ModifiersState, PlatformFamily};
use crate::cursor::CursorIcon;
use crate::output::{
    cursor_update, link_to_open, text_to_copy, CursorUpdate, FrameActions, PlatformOutput,
};
use crate::text::{is_control, is_private_use, is_typed_text};
use crate::touch::{contact_phase, emulated_pointer, force_of, pressed_after, unbalanced};
use crate::units::{LogicalPos, Point, Scalar, ScreenRect, ScrollDelta, LINE_HEIGHT, ZOOM_DIVISOR};
use vstd::prelude::*;

verus! {

/// A shortcut of the clipboard.
#[derive(Clone, Copy, Debug, PartialEq, Eq, Hash, Structural)]
pub enum Shortcut {
    Copy,
    Cut,
    Paste,
}

/// What is left for the caller to do once an event is handled.
#[derive(Clone, Copy, Debug, PartialEq, Eq, Hash, Structural)]
pub enum Outcome {
    /// Nothing.
    Done,
    /// The user asked to paste: the caller reads the clipboard and, if that
    /// gives a text, hands it to `Platform::paste`.
    PasteRequested,
    /// The window system ended a touch contact that it had not started. The
    /// event was handled all the same; the caller may want to report it.
    UnbalancedTouch,
}

/// A question to the GUI that decides whether it claims an event.
#[derive(Clone, Copy, Debug, PartialEq, Eq, Hash, Structural)]
pub enum Question {
    /// Does the GUI want what is typed? It does while a text field has the
    /// focus.
    WantsKeyboardInput,
    /// Does the GUI want the pointer? It does while the pointer is over it.
    WantsPointerInput,
    /// Is the GUI in the middle of using the pointer, as it is during a drag?
    IsUsingPointer,
}

/// The question that decides whether the GUI claims `event` for itself.
/// Input methods, keys and modifiers go with the keyboard; the wheel and the
/// buttons of the mouse go with the pointer; a move of the cursor and a touch
/// are claimed only while the GUI is using the pointer. For any other event
/// there is no question: the GUI never claims it.
pub open spec fn capture_question(event: PlatformEvent<Seq<char>>) -> Option<Question> {
    match event {
        PlatformEvent::Ime(_) | PlatformEvent::KeyboardInput(_) | PlatformEvent::ModifiersChanged(
            _,
        ) => Some(Question::WantsKeyboardInput),
        PlatformEvent::MouseWheel { .. } | PlatformEvent::MouseInput { .. } => Some(
            Question::WantsPointerInput,
        ),
        PlatformEvent::CursorMoved { .. } | PlatformEvent::Touch(_) => Some(
            Question::IsUsingPointer,
        ),
        _ => None,
    }
}

/// Where the adapter runs, and what the caller can do for it.
#[derive(Clone, Copy, Debug, PartialEq, Eq, Hash, Structural)]
pub struct Host {
    /// The family of the platform that the window lives on.
    pub family: PlatformFamily,
    /// Whether the caller has a clipboard to read and write.
    pub clipboard: bool,
    /// Whether the caller can open links.
    pub links: bool,
}

/// The state of the adapter.
pub struct PlatformView {
    /// The GUI context that the adapter holds. What goes on in it is no part
    /// of the state: this is the handle, which stays the same.
    pub context: egui::Context,
    /// The scale factor that positions and sizes are divided by.
    pub scale_factor: Scalar,
    pub family: PlatformFamily,
    /// Whether there is a clipboard.
    pub clipboard: bool,
    /// Whether links can be opened.
    pub links: bool,
    /// The input that the next frame will be given.
    pub raw_input: RawInputView,
    /// The modifier keys, as the window system last reported them.
    pub modifier: ModifiersState,
    /// Where the pointer was last seen; nowhere once it has left the window.
    pub pointer_pos: Option<LogicalPos>,
    /// How many touch contacts are down.
    pub touch_pointer_pressed: u32,
    /// The touch devices seen so far, in the order of their numbers.
    pub devices: Seq<DeviceId>,
}

/// The button of the pointer that a button of the mouse stands for. The
/// buttons that the window system only numbers stand for none.
pub open spec fn pointer_button(button: MouseButton) -> Option<PointerButton> {
    match button {
        MouseButton::Left => Some(PointerButton::Primary),
        MouseButton::Right => Some(PointerButton::Secondary),
        MouseButton::Middle => Some(PointerButton::Middle),
        MouseButton::Back => Some(PointerButton::Extra1),
        MouseButton::Forward => Some(PointerButton::Extra2),
        MouseButton::Other(_) => None,
    }
}

/// A wheel movement in points. A line is [`LINE_HEIGHT`] points; a pixel is
/// taken for a point. On a Mac the horizontal direction is the other way
/// round.
pub open spec fn scroll_delta(delta: MouseScrollDelta, family: PlatformFamily) -> ScrollDelta {
    match delta {
        MouseScrollDelta::LineDelta(x, y) => ScrollDelta {
            x,
            y,
            unit: LINE_HEIGHT,
            invert_x: family is Mac,
        },
        MouseScrollDelta::PixelDelta(by) => ScrollDelta {
            x: by.x,
            y: by.y,
            unit: 1,
            invert_x: family is Mac,
        },
    }
}

/// What an input method's step tells the GUI. A commit ends the composition
/// and starts the next one at once, since the input method stays on.
pub open spec fn composition(ime: Ime<Seq<char>>) -> Seq<InputEvent<Seq<char>>> {
    match ime {
        Ime::Enabled => seq![InputEvent::CompositionStart],
        Ime::Preedit(text, _) => seq![InputEvent::CompositionUpdate(text)],
        Ime::Commit(text) => seq![InputEvent::CompositionEnd(text), InputEvent::CompositionStart],
        Ime::Disabled => seq![InputEvent::CompositionEnd(Seq::empty())],
    }
}

/// The event that reports a touch contact itself, for a table of devices that
/// knows the contact's device.
pub open spec fn touch_event(devices: Seq<DeviceId>, touch: Touch, scale: Scalar) -> InputEvent<
    Seq<char>,
> {
    InputEvent::Touch {
        device_id: TouchDeviceId(device_number(devices, touch.device_id) as u64),
        id: TouchId(touch.id),
        phase: contact_phase(touch.phase),
        pos: LogicalPos::of(touch.location, scale),
        force: Some(force_of(touch.force)),
    }
}

impl PlatformView {
    /// The state that an adapter starts in, with the GUI context `context`
    /// and for a window of `width` by `height` physical pixels under the
    /// scale factor `scale_factor`: the screen rectangle is the window's, the
    /// pointer is at the origin, no key and no touch contact is down, no
    /// device is known and no event is pending.
    pub open spec fn initial(
        context: egui::Context,
        width: u32,
        height: u32,
        scale_factor: Scalar,
        host: Host,
    ) -> PlatformView {
        PlatformView {
            context,
            scale_factor,
            family: host.family,
            clipboard: host.clipboard,
            links: host.links,
            raw_input: RawInputView {
                screen_rect: Some(ScreenRect { width, height, scale: scale_factor }),
                time: None,
                modifiers: Modifiers::none(),
                events: Seq::empty(),
            },
            modifier: ModifiersState { bits: 0 },
            pointer_pos: Some(LogicalPos::origin()),
            touch_pointer_pressed: 0,
            devices: Seq::empty(),
        }
    }

    /// The modifier keys as the GUI reads them.
    pub open spec fn modifiers(self) -> Modifiers {
        modifiers_of(self.modifier, self.family)
    }

    /// The state with `events` at the end of the pending input.
    pub open spec fn emit(self, events: Seq<InputEvent<Seq<char>>>) -> PlatformView {
        PlatformView { raw_input: self.raw_input.with(events), ..self }
    }

    /// Adding no event changes nothing.
    pub proof fn lemma_emit_nothing(self)
        ensures
            self.emit(Seq::empty()) == self,
    {
        assert(self.raw_input.events + Seq::<InputEvent<Seq<char>>>::empty()
            =~= self.raw_input.events);
    }

    /// Adding events in two steps is adding them in one.
    pub proof fn lemma_emit_twice(
        self,
        first: Seq<InputEvent<Seq<char>>>,
        second: Seq<InputEvent<Seq<char>>>,
    )
        ensures
            self.emit(first).emit(second) == self.emit(first + second),
    {
        assert((self.raw_input.events + first) + second =~= self.raw_input.events + (first
            + second));
    }

    /// A new size of the window. The size zero by zero means that the window
    /// was minimized and changes nothing. Any other size is the new screen
    /// rectangle, under the scale factor of the moment.
    pub open spec fn on_resized(self, width: u32, height: u32) -> PlatformView {
        if width == 0 && height == 0 {
            self
        } else {
            PlatformView {
                raw_input: RawInputView {
                    screen_rect: Some(ScreenRect { width, height, scale: self.scale_factor }),
                    ..self.raw_input
                },
                ..self
            }
        }
    }

    /// A new scale factor. It is kept for what comes; the screen rectangle
    /// stays as it is until the next resize.
    pub open spec fn on_scale_factor_changed(self, scale_factor: Scalar) -> PlatformView {
        PlatformView { scale_factor, ..self }
    }

    /// A button of the mouse. It is reported where the pointer was last seen,
    /// and with no modifier, if it is one of the five buttons that the GUI
    /// knows and the pointer is inside the window.
    pub open spec fn on_mouse_input(
        self,
        state: ElementState,
        button: MouseButton,
    ) -> PlatformView {
        match (pointer_button(button), self.pointer_pos) {
            (Some(button), Some(pos)) => self.emit(
                seq![
                    InputEvent::PointerButton {
                        pos,
                        button,
                        pressed: state is Pressed,
                        modifiers: Modifiers::none(),
                    },
                ],
            ),
            _ => self,
        }
    }

    /// A turn of the wheel. It zooms while control or the shortcut key is
    /// down in the pending input, and scrolls otherwise.
    pub open spec fn on_mouse_wheel(self, delta: MouseScrollDelta) -> PlatformView {
        let delta = scroll_delta(delta, self.family);
        if self.raw_input.modifiers.ctrl || self.raw_input.modifiers.command {
            self.emit(seq![InputEvent::Zoom { delta, divisor: ZOOM_DIVISOR }])
        } else {
            self.emit(seq![InputEvent::Scroll(delta)])
        }
    }

    /// The cursor moved inside the window.
    pub open spec fn on_cursor_moved(self, position: Point) -> PlatformView {
        let pos = LogicalPos::of(position, self.scale_factor);
        PlatformView { pointer_pos: Some(pos), ..self }.emit(seq![InputEvent::PointerMoved(pos)])
    }

    /// The cursor left the window.
    pub open spec fn on_cursor_left(self) -> PlatformView {
        PlatformView { pointer_pos: None, ..self }.emit(seq![InputEvent::PointerGone])
    }

    /// Other modifier keys are down. They are kept, and the pending input is
    /// told.
    pub open spec fn on_modifiers_changed(self, state: ModifiersState) -> PlatformView {
        PlatformView {
            modifier: state,
            raw_input: RawInputView {
                modifiers: modifiers_of(state, self.family),
                ..self.raw_input
            },
            ..self
        }
    }

    /// A step of an input method.
    pub open spec fn on_ime(self, ime: Ime<Seq<char>>) -> PlatformView {
        self.emit(composition(ime))
    }

    /// The text event of a key: the text that the key types, if it is fit to
    /// be typed and neither control nor the shortcut key is down.
    pub open spec fn typed(self, key: KeyEvent<Seq<char>>) -> Seq<InputEvent<Seq<char>>> {
        match key.text {
            Some(text) => if is_typed_text(text) && !self.modifiers().ctrl
                && !self.modifiers().command {
                seq![InputEvent::Text(text)]
            } else {
                Seq::empty()
            },
            None => Seq::empty(),
        }
    }

    /// The clipboard shortcut that a key stands for: C, X or V going down
    /// while control is down.
    pub open spec fn shortcut(self, key: KeyEvent<Seq<char>>) -> Option<Shortcut> {
        if self.modifiers().ctrl && key.state is Pressed {
            match key_code(key.logical_key) {
                Some(Key::C) => Some(Shortcut::Copy),
                Some(Key::X) => Some(Shortcut::Cut),
                Some(Key::V) => Some(Shortcut::Paste),
                _ => None,
            }
        } else {
            None
        }
    }

    /// The event of the key itself. A shortcut to copy or cut is that event
    /// and no other; a shortcut to paste is left to the caller. Any other key
    /// that the table knows is reported with the modifiers of the moment and
    /// never as a repeat.
    pub open spec fn keyed(self, key: KeyEvent<Seq<char>>) -> Seq<InputEvent<Seq<char>>> {
        match self.shortcut(key) {
            Some(Shortcut::Copy) => seq![InputEvent::Copy],
            Some(Shortcut::Cut) => seq![InputEvent::Cut],
            Some(Shortcut::Paste) => Seq::empty(),
            None => match key_code(key.logical_key) {
                Some(code) => seq![
                    InputEvent::Key {
                        key: code,
                        pressed: key.state is Pressed,
                        repeat: false,
                        modifiers: self.modifiers(),
                    },
                ],
                None => Seq::empty(),
            },
        }
    }

    /// A key went down or came up: first the text it types, then the key.
    pub open spec fn on_keyboard_input(self, key: KeyEvent<Seq<char>>) -> PlatformView {
        self.emit(self.typed(key) + self.keyed(key))
    }

    /// A report of a touch contact. The contact's device gets its number, the
    /// contact is reported by itself, and after that the one pointer does
    /// what [`emulated_pointer`] says.
    pub open spec fn on_touch(self, touch: Touch) -> PlatformView {
        let devices = register(self.devices, touch.device_id);
        PlatformView {
            devices,
            touch_pointer_pressed: pressed_after(self.touch_pointer_pressed, touch.phase),
            ..self
        }.emit(
            seq![touch_event(devices, touch, self.scale_factor)] + emulated_pointer(
                self.touch_pointer_pressed,
                touch.phase,
                LogicalPos::of(touch.location, self.scale_factor),
            ),
        )
    }

    /// The state after `event`.
    pub open spec fn handle(self, event: PlatformEvent<Seq<char>>) -> PlatformView {
        match event {
            PlatformEvent::Resized { width, height } => self.on_resized(width, height),
            PlatformEvent::ScaleFactorChanged { scale_factor } => self.on_scale_factor_changed(
                scale_factor,
            ),
            PlatformEvent::MouseInput { state, button } => self.on_mouse_input(state, button),
            PlatformEvent::MouseWheel { delta } => self.on_mouse_wheel(delta),
            PlatformEvent::CursorMoved { position } => self.on_cursor_moved(position),
            PlatformEvent::CursorLeft => self.on_cursor_left(),
            PlatformEvent::ModifiersChanged(state) => self.on_modifiers_changed(state),
            PlatformEvent::Ime(ime) => self.on_ime(ime),
            PlatformEvent::KeyboardInput(key) => self.on_keyboard_input(key),
            PlatformEvent::Touch(touch) => self.on_touch(touch),
            PlatformEvent::Other => self,
        }
    }

    /// What `event` leaves for the caller to do.
    pub open spec fn outcome(self, event: PlatformEvent<Seq<char>>) -> Outcome {
        match event {
            PlatformEvent::KeyboardInput(key) => if self.clipboard && self.shortcut(key) == Some(
                Shortcut::Paste,
            ) {
                Outcome::PasteRequested
            } else {
                Outcome::Done
            },
            PlatformEvent::Touch(touch) => if unbalanced(self.touch_pointer_pressed, touch.phase) {
                Outcome::UnbalancedTouch
            } else {
                Outcome::Done
            },
            _ => Outcome::Done,
        }
    }

    /// The state once the pending input was handed over for a frame.
    pub open spec fn begun(self) -> PlatformView {
        PlatformView { raw_input: self.raw_input.taken(), ..self }
    }

    /// What the platform is to do about the GUI's output at the end of a
    /// frame, with a window at hand (`window`) or without one.
    pub open spec fn frame_actions(
        self,
        output: PlatformOutput<Seq<char>>,
        window: bool,
    ) -> FrameActions<Seq<char>> {
        FrameActions {
            cursor: if window {
                Some(cursor_update(output.cursor_icon, self.pointer_pos is Some))
            } else {
                None
            },
            clipboard: text_to_copy(output, self.clipboard),
            open_url: link_to_open(output, self.links),
        }
    }

    /// The events that `event` adds to the pending input.
    pub open spec fn emitted(self, event: PlatformEvent<Seq<char>>) -> Seq<InputEvent<Seq<char>>> {
        self.handle(event).raw_input.events.skip(self.raw_input.events.len() as int)
    }

    /// A resize to zero by zero changes nothing: the screen rectangle is what
    /// it was, and so is everything else.
    pub proof fn lemma_minimize_changes_nothing(self)
        ensures
            self.handle(PlatformEvent::Resized { width: 0, height: 0 }) == self,
    {
    }

    /// What a key adds to the pending input: the text it types, then the key
    /// itself.
    pub proof fn lemma_key_emits(self, key: KeyEvent<Seq<char>>)
        ensures
            self.emitted(PlatformEvent::KeyboardInput(key)) == self.typed(key) + self.keyed(key),
    {
        let added = self.typed(key) + self.keyed(key);
        assert((self.raw_input.events + added).skip(self.raw_input.events.len() as int)
            =~= added);
    }

    /// A key whose text holds a control character or a private-use code point
    /// types nothing: no text event comes of it, whatever the state.
    pub proof fn lemma_unfit_text_is_not_typed(self, key: KeyEvent<Seq<char>>, at: int)
        requires
            key.text matches Some(text) && 0 <= at < text.len() && (is_control(text[at])
                || is_private_use(text[at])),
        ensures
            forall|i: int|
                0 <= i < self.emitted(PlatformEvent::KeyboardInput(key)).len() ==> !(
                #[trigger] self.emitted(PlatformEvent::KeyboardInput(key))[i] is Text),
    {
        self.lemma_key_emits(key);
    }

    /// Control and C, going down, are a copy and nothing else: neither the
    /// text of the key nor the key itself reaches the GUI.
    pub proof fn lemma_ctrl_c_copies(self, key: KeyEvent<Seq<char>>)
        requires
            self.modifier.control(),
            key.state is Pressed,
            key_code(key.logical_key) == Some(Key::C),
        ensures
            self.emitted(PlatformEvent::KeyboardInput(key)) == seq![
                InputEvent::<Seq<char>>::Copy,
            ],
            self.outcome(PlatformEvent::KeyboardInput(key)) == Outcome::Done,
    {
        self.lemma_key_emits(key);
    }

    /// A frame that begins right after another is given no event: the first
    /// took them all.
    pub proof fn lemma_second_frame_is_empty(self)
        ensures
            self.begun().raw_input.events == Seq::<InputEvent<Seq<char>>>::empty(),
            self.begun().begun() == self.begun(),
    {
    }

    /// Where the GUI wants the cursor hidden, the window's cursor is made
    /// invisible and given no shape, wherever the pointer is.
    pub proof fn lemma_hidden_cursor_gets_no_shape(self, output: PlatformOutput<Seq<char>>)
        requires
            output.cursor_icon == CursorIcon::Hidden,
        ensures
            self.frame_actions(output, true).cursor == Some(CursorUpdate::Hide),
            self.frame_actions(output, false).cursor.is_none(),
    {
    }
}

} // verus!
