//! The events of the window system, as far as the adapter reads them.
use crate::keys::LogicalKey;
use crate::modifiers::ModifiersState;
use crate::units::{Point, Scalar};
use vstd::prelude::*;

verus! {

/// Whether a button or a key went down or came up.
#[derive(Clone, Copy, Debug, PartialEq, Eq, Hash, Structural)]
pub enum ElementState {
    Pressed,
    Released,
}

/// A button of the mouse.
#[derive(Clone, Copy, Debug, PartialEq, Eq, Hash, Structural)]
pub enum MouseButton {
    Left,
    Right,
    Middle,
    Back,
    Forward,
    /// A further button, by the number the window system gives it.
    Other(u16),
}

/// How far the wheel turned.
#[derive(Clone, Copy, Debug, PartialEq, Eq, Hash, Structural)]
pub enum MouseScrollDelta {
    /// Lines to the right and down.
    LineDelta(Scalar, Scalar),
    /// Physical pixels to the right and down.
    PixelDelta(Point),
}

/// Where a touch contact is in its life.
#[derive(Clone, Copy, Debug, PartialEq, Eq, Hash, Structural)]
pub enum TouchPhase {
    Started,
    Moved,
    Ended,
    Cancelled,
}

/// How hard a touch contact presses.
#[derive(Clone, Copy, Debug, PartialEq, Eq, Hash, Structural)]
pub enum Force {
    /// A force in the device's own unit, with what the device can report.
    Calibrated { force: Scalar, max_possible_force: Scalar, altitude_angle: Option<Scalar> },
    /// A force between zero and one.
    Normalized(Scalar),
}

/// What names an input device. Two devices are the same if and only if their
/// identifiers are equal; nothing else is read from one.
#[derive(Clone, Copy, Debug, PartialEq, Eq, Hash, Structural)]
pub struct DeviceId {
    pub raw: u64,
}

/// One report of one touch contact.
#[derive(Clone, Copy, Debug, PartialEq, Eq, Hash, Structural)]
pub struct Touch {
    pub device_id: DeviceId,
    pub phase: TouchPhase,
    /// Where the contact is, in physical pixels.
    pub location: Point,
    pub force: Option<Force>,
    /// What tells this contact from the others of its device.
    pub id: u64,
}

/// A step of text composition by an input method.
#[derive(Clone, Debug, PartialEq, Eq, Hash)]
pub enum Ime<Str = String> {
    Enabled,
    /// The text composed so far, and the cursor's range in it.
    Preedit(Str, Option<(usize, usize)>),
    Commit(Str),
    Disabled,
}

impl View for Ime<String> {
    type V = Ime<Seq<char>>;

    open spec fn view(&self) -> Ime<Seq<char>> {
        match *self {
            Ime::Enabled => Ime::Enabled,
            Ime::Preedit(text, cursor) => Ime::Preedit(text@, cursor),
            Ime::Commit(text) => Ime::Commit(text@),
            Ime::Disabled => Ime::Disabled,
        }
    }
}

/// A key going down or coming up.
#[derive(Clone, Debug, PartialEq, Eq, Hash)]
pub struct KeyEvent<Str = String> {
    pub logical_key: LogicalKey<Str>,
    /// The text that the key types, if it types any.
    pub text: Option<Str>,
    pub state: ElementState,
}

impl View for KeyEvent<String> {
    type V = KeyEvent<Seq<char>>;

    open spec fn view(&self) -> KeyEvent<Seq<char>> {
        KeyEvent {
            logical_key: self.logical_key@,
            text: match self.text {
                Some(text) => Some(text@),
                None => None,
            },
            state: self.state,
        }
    }
}

/// An event of the window system.
#[derive(Clone, Debug, PartialEq, Eq, Hash)]
pub enum PlatformEvent<Str = String> {
    /// The window has a new size, in physical pixels.
    Resized { width: u32, height: u32 },
    ScaleFactorChanged { scale_factor: Scalar },
    MouseInput { state: ElementState, button: MouseButton },
    MouseWheel { delta: MouseScrollDelta },
    /// The cursor is at `position`, in physical pixels.
    CursorMoved { position: Point },
    CursorLeft,
    ModifiersChanged(ModifiersState),
    Ime(Ime<Str>),
    KeyboardInput(KeyEvent<Str>),
    Touch(Touch),
    /// Any other event: of the window, of a device, or of the application.
    Other,
}

impl View for PlatformEvent<String> {
    type V = PlatformEvent<Seq<char>>;

    open spec fn view(&self) -> PlatformEvent<Seq<char>> {
        match *self {
            PlatformEvent::Resized { width, height } => PlatformEvent::Resized { width, height },
            PlatformEvent::ScaleFactorChanged { scale_factor } => {
                PlatformEvent::ScaleFactorChanged { scale_factor }
            },
            PlatformEvent::MouseInput { state, button } => PlatformEvent::MouseInput {
                state,
                button,
            },
            PlatformEvent::MouseWheel { delta } => PlatformEvent::MouseWheel { delta },
            PlatformEvent::CursorMoved { position } => PlatformEvent::CursorMoved { position },
            PlatformEvent::CursorLeft => PlatformEvent::CursorLeft,
            PlatformEvent::ModifiersChanged(state) => PlatformEvent::ModifiersChanged(state),
            PlatformEvent::Ime(ime) => PlatformEvent::Ime(ime@),
            PlatformEvent::KeyboardInput(key) => PlatformEvent::KeyboardInput(key@),
            PlatformEvent::Touch(touch) => PlatformEvent::Touch(touch),
            PlatformEvent::Other => PlatformEvent::Other,
        }
    }
}

} // verus!
