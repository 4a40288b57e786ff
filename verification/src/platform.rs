//! The adapter itself.
use crate::context::{
    default_fonts, default_style, is_using_pointer, new_context, set_fonts, set_style, share,
    wants_keyboard_input, wants_pointer_input,
};
use crate::cursor::egui_to_winit_cursor_icon;
use crate::devices::{register, DeviceTable};
use crate::event::{
    ElementState, Force, Ime, KeyEvent, MouseButton, MouseScrollDelta, PlatformEvent, Touch,
    TouchPhase,
};
use crate::input::{
    ContactPhase, InputEvent, PointerButton, RawInput, RawInputView, TouchDeviceId, TouchId,
};
use crate::keys::{winit_to_egui_key_code, Key};
use crate::model::{
    capture_question, composition, touch_event, Host, Outcome, PlatformView, Question,
};
use crate::modifiers::{
    empty_state, winit_to_egui_modifiers, Modifiers, ModifiersState, PlatformFamily,
};
use crate::output::{handle_clipboard, handle_links, CursorUpdate, FrameActions, PlatformOutput};
use crate::text::typed_text;
use crate::touch::{emulated_pointer, pressed_after, primary_button, unbalanced};
use crate::units::{
    LogicalPos, Point, Scalar, ScreenRect, ScrollDelta, LINE_HEIGHT, ONE_BITS, ZOOM_DIVISOR,
};
use vstd::prelude::*;

verus! {

/// Configures the creation of the `Platform`.
#[derive(Debug)]
pub struct PlatformDescriptor {
    /// Width of the window in physical pixel.
    pub physical_width: u32,
    /// Height of the window in physical pixel.
    pub physical_height: u32,
    /// HiDPI scale factor.
    pub scale_factor: Scalar,
    /// Egui font configuration.
    pub font_definitions: egui::FontDefinitions,
    /// Egui style configuration.
    pub style: egui::Style,
}

impl Default for PlatformDescriptor {
    /// A window of no size under the scale factor zero, with the fonts and
    /// the style that the GUI comes with.
    fn default() -> (descriptor: PlatformDescriptor)
        ensures
            descriptor.physical_width == 0,
            descriptor.physical_height == 0,
            descriptor.scale_factor == Scalar::zero(),
    {
        PlatformDescriptor {
            physical_width: 0,
            physical_height: 0,
            scale_factor: Scalar { bits: 0 },
            font_definitions: default_fonts(),
            style: default_style(),
        }
    }
}

/// Provides the integration between egui and winit.
pub struct Platform {
    scale_factor: Scalar,
    context: egui::Context,
    family: PlatformFamily,
    clipboard: bool,
    links: bool,
    raw_input: RawInput,
    modifier: ModifiersState,
    pointer_pos: Option<LogicalPos>,
    // For emulating pointer events from touch events the touch contacts are
    // merged into one pointer, and the contacts that are down are counted.
    touch_pointer_pressed: u32,
    // The GUI wants a number for each touch device, and the window system's
    // identifiers are opaque.
    devices: DeviceTable,
}

impl View for Platform {
    type V = PlatformView;

    closed spec fn view(&self) -> PlatformView {
        PlatformView {
            context: self.context,
            scale_factor: self.scale_factor,
            family: self.family,
            clipboard: self.clipboard,
            links: self.links,
            raw_input: self.raw_input@,
            modifier: self.modifier,
            pointer_pos: self.pointer_pos,
            touch_pointer_pressed: self.touch_pointer_pressed,
            devices: self.devices@,
        }
    }
}

impl Platform {
    /// Creates a new `Platform`. Its GUI context is new as well, and is given
    /// the fonts and the style of `descriptor`.
    pub fn new(descriptor: PlatformDescriptor, host: Host) -> (platform: Platform)
        ensures
            platform@ == PlatformView::initial(
                platform@.context,
                descriptor.physical_width,
                descriptor.physical_height,
                descriptor.scale_factor,
                host,
            ),
    {
        let context = new_context();
        set_fonts(&context, descriptor.font_definitions);
        set_style(&context, descriptor.style);
        let mut raw_input = RawInput::new();
        raw_input.screen_rect = Some(
            ScreenRect {
                width: descriptor.physical_width,
                height: descriptor.physical_height,
                scale: descriptor.scale_factor,
            },
        );
        Platform {
            scale_factor: descriptor.scale_factor,
            context,
            family: host.family,
            clipboard: host.clipboard,
            links: host.links,
            raw_input,
            modifier: empty_state(),
            pointer_pos: Some(
                LogicalPos {
                    x: Scalar { bits: 0 },
                    y: Scalar { bits: 0 },
                    scale: Scalar { bits: ONE_BITS },
                },
            ),
            touch_pointer_pressed: 0,
            devices: DeviceTable::new(),
        }
    }

    /// Puts `event` at the end of the pending input.
    fn push(&mut self, event: InputEvent)
        ensures
            final(self)@ == old(self)@.emit(seq![event@]),
    {
        self.raw_input.events.push(event);
        assert(self.raw_input@.events =~= old(self).raw_input@.events + seq![event@]);
    }

    fn on_resized(&mut self, width: u32, height: u32)
        ensures
            final(self)@ == old(self)@.on_resized(width, height),
    {
        // A resize to nothing is how a minimized window shows on some
        // platforms. There is nothing to lay out then, and the rectangle is
        // best left alone.
        if width == 0 && height == 0 {
            return ;
        }
        self.raw_input.screen_rect = Some(ScreenRect { width, height, scale: self.scale_factor });
    }

    fn on_mouse_input(&mut self, state: ElementState, button: MouseButton)
        ensures
            final(self)@ == old(self)@.on_mouse_input(state, button),
    {
        let button = match button {
            MouseButton::Left => PointerButton::Primary,
            MouseButton::Right => PointerButton::Secondary,
            MouseButton::Middle => PointerButton::Middle,
            MouseButton::Back => PointerButton::Extra1,
            MouseButton::Forward => PointerButton::Extra2,
            MouseButton::Other(_) => {
                return ;
            },
        };
        // The event is pushed only if the cursor is inside the window.
        if let Some(pos) = self.pointer_pos {
            self.push(
                InputEvent::PointerButton {
                    pos,
                    button,
                    pressed: matches!(state, ElementState::Pressed),
                    modifiers: Modifiers::default(),
                },
            );
        }
    }

    fn on_mouse_wheel(&mut self, delta: MouseScrollDelta)
        ensures
            final(self)@ == old(self)@.on_mouse_wheel(delta),
    {
        let invert_x = matches!(self.family, PlatformFamily::Mac);
        let delta = match delta {
            MouseScrollDelta::LineDelta(x, y) => ScrollDelta { x, y, unit: LINE_HEIGHT, invert_x },
            MouseScrollDelta::PixelDelta(by) => ScrollDelta { x: by.x, y: by.y, unit: 1, invert_x },
        };
        // The control key (the command key on a Mac) asks for a zoom.
        if self.raw_input.modifiers.ctrl || self.raw_input.modifiers.command {
            self.push(InputEvent::Zoom { delta, divisor: ZOOM_DIVISOR });
        } else {
            self.push(InputEvent::Scroll(delta));
        }
    }

    fn on_cursor_moved(&mut self, position: Point)
        ensures
            final(self)@ == old(self)@.on_cursor_moved(position),
    {
        let pos = LogicalPos { x: position.x, y: position.y, scale: self.scale_factor };
        self.pointer_pos = Some(pos);
        self.push(InputEvent::PointerMoved(pos));
    }

    fn on_cursor_left(&mut self)
        ensures
            final(self)@ == old(self)@.on_cursor_left(),
    {
        self.pointer_pos = None;
        self.push(InputEvent::PointerGone);
    }

    fn on_modifiers_changed(&mut self, state: ModifiersState)
        ensures
            final(self)@ == old(self)@.on_modifiers_changed(state),
    {
        self.modifier = state;
        self.raw_input.modifiers = winit_to_egui_modifiers(state, self.family);
    }

    fn on_ime(&mut self, ime: &Ime)
        ensures
            final(self)@ == old(self)@.on_ime(ime@),
    {
        match ime {
            Ime::Enabled => {
                self.push(InputEvent::CompositionStart);
            },
            Ime::Preedit(text, _) => {
                self.push(InputEvent::CompositionUpdate(text.clone()));
            },
            Ime::Commit(text) => {
                self.push(InputEvent::CompositionEnd(text.clone()));
                // The input method is still on: the next composition starts.
                self.push(InputEvent::CompositionStart);
                proof {
                    old(self)@.lemma_emit_twice(
                        seq![InputEvent::CompositionEnd(text@)],
                        seq![InputEvent::CompositionStart],
                    );
                    assert(seq![InputEvent::<Seq<char>>::CompositionEnd(text@)]
                        + seq![InputEvent::CompositionStart] =~= composition(ime@));
                }
            },
            Ime::Disabled => {
                self.push(InputEvent::CompositionEnd(String::new()));
            },
        }
    }

    fn on_keyboard_input(&mut self, key: &KeyEvent) -> (outcome: Outcome)
        ensures
            final(self)@ == old(self)@.on_keyboard_input(key@),
            outcome == old(self)@.outcome(PlatformEvent::KeyboardInput(key@)),
    {
        let ghost before = self@;
        let modifiers = winit_to_egui_modifiers(self.modifier, self.family);
        let pressed = matches!(key.state, ElementState::Pressed);
        if let Some(text) = &key.text {
            // A key that is part of a shortcut types nothing.
            if !modifiers.ctrl && !modifiers.command && typed_text(text.as_str()) {
                self.push(InputEvent::Text(text.clone()));
            }
        }
        proof {
            before.lemma_emit_nothing();
            self@.lemma_emit_nothing();
            before.lemma_emit_twice(before.typed(key@), before.keyed(key@));
        }
        let code = winit_to_egui_key_code(&key.logical_key);
        if modifiers.ctrl && pressed {
            match code {
                Some(Key::C) => {
                    self.push(InputEvent::Copy);
                    return Outcome::Done;
                },
                Some(Key::X) => {
                    self.push(InputEvent::Cut);
                    return Outcome::Done;
                },
                Some(Key::V) => {
                    return if self.clipboard {
                        Outcome::PasteRequested
                    } else {
                        Outcome::Done
                    };
                },
                _ => {},
            }
        }
        if let Some(key) = code {
            self.push(InputEvent::Key { key, pressed, repeat: false, modifiers });
        }
        Outcome::Done
    }

    /// Reports a touch contact by itself, under the number of its device.
    fn report_touch(&mut self, touch: &Touch, pos: LogicalPos)
        requires
            pos == LogicalPos::of(touch.location, old(self)@.scale_factor),
        ensures
            final(self)@ == (PlatformView {
                devices: register(old(self)@.devices, touch.device_id),
                ..old(self)@
            }).emit(seq![touch_event(final(self)@.devices, *touch, old(self)@.scale_factor)]),
    {
        let device_id = self.devices.register(touch.device_id);
        let phase = match touch.phase {
            TouchPhase::Started => ContactPhase::Start,
            TouchPhase::Moved => ContactPhase::Move,
            TouchPhase::Ended => ContactPhase::End,
            TouchPhase::Cancelled => ContactPhase::Cancel,
        };
        let force = match touch.force {
            Some(Force::Calibrated { force, .. }) => force,
            Some(Force::Normalized(force)) => force,
            // The GUI cannot tell a device without pressure from no pressure.
            None => Scalar { bits: 0 },
        };
        self.push(
            InputEvent::Touch {
                device_id: TouchDeviceId(device_id),
                id: TouchId(touch.id),
                phase,
                pos,
                force: Some(force),
            },
        );
    }

    /// Moves the one pointer that stands for all touch contacts.
    ///
    /// The window system emulates no pointer from touch contacts, and the GUI
    /// needs one. All contacts are merged into one pointer, which stays
    /// pressed until the last contact is lifted.
    fn emulate_pointer(&mut self, phase: TouchPhase, pos: LogicalPos) -> (outcome: Outcome)
        ensures
            final(self)@ == (PlatformView {
                touch_pointer_pressed: pressed_after(old(self)@.touch_pointer_pressed, phase),
                ..old(self)@
            }).emit(emulated_pointer(old(self)@.touch_pointer_pressed, phase, pos)),
            outcome == if unbalanced(old(self)@.touch_pointer_pressed, phase) {
                Outcome::UnbalancedTouch
            } else {
                Outcome::Done
            },
    {
        let was_pressed = self.touch_pointer_pressed > 0;
        let mut outcome = Outcome::Done;
        match phase {
            TouchPhase::Started => {
                if self.touch_pointer_pressed < u32::MAX {
                    self.touch_pointer_pressed += 1;
                }
            },
            TouchPhase::Ended | TouchPhase::Cancelled => {
                match self.touch_pointer_pressed.checked_sub(1) {
                    Some(count) => {
                        self.touch_pointer_pressed = count;
                    },
                    None => {
                        outcome = Outcome::UnbalancedTouch;
                    },
                }
            },
            TouchPhase::Moved => {
                self.push(InputEvent::PointerMoved(pos));
                return outcome;
            },
        }
        let ghost counted = self@;
        proof {
            counted.lemma_emit_nothing();
        }
        if !was_pressed && self.touch_pointer_pressed > 0 {
            self.push(
                InputEvent::PointerButton {
                    pos,
                    button: PointerButton::Primary,
                    pressed: true,
                    modifiers: Modifiers::default(),
                },
            );
        } else if was_pressed && self.touch_pointer_pressed == 0 {
            // The GUI wants the release before it hears that the pointer is
            // gone.
            self.push(
                InputEvent::PointerButton {
                    pos,
                    button: PointerButton::Primary,
                    pressed: false,
                    modifiers: Modifiers::default(),
                },
            );
            self.push(InputEvent::PointerGone);
            proof {
                counted.lemma_emit_twice(
                    seq![primary_button(pos, false)],
                    seq![InputEvent::PointerGone],
                );
                assert(seq![primary_button(pos, false)] + seq![InputEvent::PointerGone]
                    =~= emulated_pointer(old(self)@.touch_pointer_pressed, phase, pos));
            }
        }
        outcome
    }

    fn on_touch(&mut self, touch: &Touch) -> (outcome: Outcome)
        ensures
            final(self)@ == old(self)@.on_touch(*touch),
            outcome == old(self)@.outcome(PlatformEvent::Touch(*touch)),
    {
        let pos = LogicalPos {
            x: touch.location.x,
            y: touch.location.y,
            scale: self.scale_factor,
        };
        self.report_touch(touch, pos);
        let outcome = self.emulate_pointer(touch.phase, pos);
        proof {
            let before = old(self)@;
            let moved = PlatformView {
                devices: self@.devices,
                touch_pointer_pressed: self@.touch_pointer_pressed,
                ..before
            };
            moved.lemma_emit_twice(
                seq![touch_event(self@.devices, *touch, before.scale_factor)],
                emulated_pointer(before.touch_pointer_pressed, touch.phase, pos),
            );
        }
        outcome
    }

    /// Handles the given event of the window system and brings the pending
    /// input up to date. To be called before the frame begins.
    ///
    /// The result says what is left for the caller to do: see [`Outcome`].
    pub fn handle_event(&mut self, event: &PlatformEvent) -> (outcome: Outcome)
        ensures
            final(self)@ == old(self)@.handle(event@),
            outcome == old(self)@.outcome(event@),
    {
        match event {
            PlatformEvent::Resized { width, height } => {
                self.on_resized(*width, *height);
                Outcome::Done
            },
            PlatformEvent::ScaleFactorChanged { scale_factor } => {
                self.scale_factor = *scale_factor;
                Outcome::Done
            },
            PlatformEvent::MouseInput { state, button } => {
                self.on_mouse_input(*state, *button);
                Outcome::Done
            },
            PlatformEvent::MouseWheel { delta } => {
                self.on_mouse_wheel(*delta);
                Outcome::Done
            },
            PlatformEvent::CursorMoved { position } => {
                self.on_cursor_moved(*position);
                Outcome::Done
            },
            PlatformEvent::CursorLeft => {
                self.on_cursor_left();
                Outcome::Done
            },
            PlatformEvent::ModifiersChanged(state) => {
                self.on_modifiers_changed(*state);
                Outcome::Done
            },
            PlatformEvent::Ime(ime) => {
                self.on_ime(ime);
                Outcome::Done
            },
            PlatformEvent::KeyboardInput(key) => self.on_keyboard_input(key),
            PlatformEvent::Touch(touch) => self.on_touch(touch),
            PlatformEvent::Other => Outcome::Done,
        }
    }

    /// Hands over the text that the clipboard held when
    /// [`Platform::handle_event`] asked for it. It reaches the GUI as typed
    /// text.
    pub fn paste(&mut self, contents: String)
        ensures
            final(self)@ == old(self)@.emit(seq![InputEvent::Text(contents@)]),
    {
        self.push(InputEvent::Text(contents));
    }

    /// Returns `true` if the GUI should handle the event exclusively. Check
    /// this to avoid unexpected interactions, e.g. a mouse click registering
    /// "behind" the UI.
    ///
    /// Which question decides is settled by [`question_of`]; the answer is
    /// the GUI's own. An event without a question is never claimed.
    pub fn captures_event(&self, event: &PlatformEvent) -> (captures: bool)
        ensures
            capture_question(event@) is None ==> !captures,
    {
        match question_of(event) {
            Some(Question::WantsKeyboardInput) => wants_keyboard_input(&self.context),
            Some(Question::WantsPointerInput) => wants_pointer_input(&self.context),
            Some(Question::IsUsingPointer) => is_using_pointer(&self.context),
            None => false,
        }
    }

    /// Returns the GUI context: another handle to the one that the platform
    /// holds, which is the same for as long as the platform lives.
    pub fn context(&self) -> (context: egui::Context)
        ensures
            context == self@.context,
    {
        share(&self.context)
    }

    /// Updates the time that the GUI uses for animations. `elapsed_seconds`
    /// should be the seconds since some point in time (for example
    /// application start).
    pub fn update_time(&mut self, elapsed_seconds: Scalar)
        ensures
            final(self)@ == (PlatformView {
                raw_input: RawInputView { time: Some(elapsed_seconds), ..old(self)@.raw_input },
                ..old(self)@
            }),
    {
        self.raw_input.time = Some(elapsed_seconds);
    }

    /// Starts a new frame: hands over the input that is pending, for the
    /// caller to give to the GUI, and starts collecting anew.
    pub fn begin_frame(&mut self) -> (input: RawInput)
        ensures
            input@ == old(self)@.raw_input,
            final(self)@ == old(self)@.begun(),
    {
        self.raw_input.take()
    }

    /// Ends the frame: says what the GUI's `output` asks of the platform.
    /// With a window at hand (`window`) that includes what to do with its
    /// cursor.
    pub fn end_frame(&self, output: &PlatformOutput, window: bool) -> (actions: FrameActions)
        ensures
            actions@ == self@.frame_actions(output@, window),
    {
        let cursor = if window {
            Some(
                match egui_to_winit_cursor_icon(output.cursor_icon) {
                    Some(shape) => CursorUpdate::Show(
                        // The shape is set only if the pointer is inside the
                        // window.
                        if self.pointer_pos.is_some() {
                            Some(shape)
                        } else {
                            None
                        },
                    ),
                    None => CursorUpdate::Hide,
                },
            )
        } else {
            None
        };
        FrameActions {
            cursor,
            clipboard: handle_clipboard(output, self.clipboard),
            open_url: handle_links(output, self.links),
        }
    }

    /// Returns a mutable reference to the input that will be handed over the
    /// next time [`Self::begin_frame`] is called.
    pub fn raw_input_mut(&mut self) -> (input: &mut RawInput)
        ensures
            (*input)@ == old(self)@.raw_input,
            final(self)@ == (PlatformView { raw_input: (*final(input))@, ..old(self)@ }),
    {
        &mut self.raw_input
    }

    /// The pending input.
    pub fn raw_input(&self) -> (input: &RawInput)
        ensures
            input@ == self@.raw_input,
    {
        &self.raw_input
    }

    /// The scale factor that positions and sizes are divided by.
    pub fn scale_factor(&self) -> (scale_factor: Scalar)
        ensures
            scale_factor == self@.scale_factor,
    {
        self.scale_factor
    }

    /// The modifier keys, as the window system last reported them.
    pub fn modifier(&self) -> (modifier: ModifiersState)
        ensures
            modifier == self@.modifier,
    {
        self.modifier
    }

    /// Where the pointer was last seen; nowhere once it has left the window.
    pub fn pointer_pos(&self) -> (pos: Option<LogicalPos>)
        ensures
            pos == self@.pointer_pos,
    {
        self.pointer_pos
    }

    /// How many touch contacts are down.
    pub fn touch_pointer_pressed(&self) -> (pressed: u32)
        ensures
            pressed == self@.touch_pointer_pressed,
    {
        self.touch_pointer_pressed
    }

    /// How many touch devices have been seen.
    pub fn device_count(&self) -> (count: usize)
        ensures
            count == self@.devices.len(),
    {
        self.devices.len()
    }

    /// Where the platform runs and what its caller can do for it.
    pub fn host(&self) -> (host: Host)
        ensures
            host == (Host {
                family: self@.family,
                clipboard: self@.clipboard,
                links: self@.links,
            }),
    {
        Host { family: self.family, clipboard: self.clipboard, links: self.links }
    }
}

/// The question that decides whether the GUI claims `event`, if there is
/// one.
pub fn question_of(event: &PlatformEvent) -> (question: Option<Question>)
    ensures
        question == capture_question(event@),
{
    match event {
        PlatformEvent::Ime(_)
        | PlatformEvent::KeyboardInput(_)
        | PlatformEvent::ModifiersChanged(_) => Some(Question::WantsKeyboardInput),
        PlatformEvent::MouseWheel { .. } | PlatformEvent::MouseInput { .. } => Some(
            Question::WantsPointerInput,
        ),
        PlatformEvent::CursorMoved { .. } => Some(Question::IsUsingPointer),
        PlatformEvent::Touch(_) => Some(Question::IsUsingPointer),
        _ => None,
    }
}

} // verus!
