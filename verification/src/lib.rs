//! The core of an adapter between a window system and an immediate-mode
//! GUI: what each event of the window means to the GUI.
//!
//! Window events go in one at a time through [`Platform::handle_event`], which
//! appends what they mean to the pending [`RawInput`]. Once per frame
//! [`Platform::begin_frame`] hands that batch over and
//! [`Platform::end_frame`] says what the GUI's output asks of the window, the
//! clipboard and the browser.
//!
//! The library computes with integers, booleans and text only. Where the
//! window system reports a floating-point number, the library carries its
//! bits and says what is to be computed from them: see [`units`].
mod context;
pub mod cursor;
pub mod devices;
pub mod event;
pub mod input;
pub mod keys;
pub mod model;
pub mod modifiers;
pub mod output;
pub mod platform;
pub mod text;
pub mod touch;
pub mod trace;
pub mod units;

pub use cursor::{egui_to_winit_cursor_icon, CursorIcon, CursorShape};
pub use devices::DeviceTable;
pub use event::{
    DeviceId, ElementState, Force, Ime, KeyEvent, MouseButton, MouseScrollDelta, PlatformEvent,
    Touch, TouchPhase,
};
pub use input::{ContactPhase, InputEvent, PointerButton, RawInput, TouchDeviceId, TouchId};
pub use keys::{winit_to_egui_key_code, Key, LogicalKey, NamedKey};
pub use model::{Host, Outcome, PlatformView, Question, Shortcut};
pub use modifiers::{winit_to_egui_modifiers, Modifiers, ModifiersState, PlatformFamily};
pub use output::{
    handle_clipboard, handle_links, CursorUpdate, FrameActions, OpenUrl, PlatformOutput,
};
pub use platform::{question_of, Platform, PlatformDescriptor};
pub use units::{LogicalPos, Point, Scalar, ScreenRect, ScrollDelta};
