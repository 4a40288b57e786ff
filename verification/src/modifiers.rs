//! Modifier keys: the window system's flag set and the GUI's view of it.
use vstd::prelude::*;

verus! {

/// The flag of the shift key in [`ModifiersState::bits`].
pub const SHIFT: u32 = 0x4;

/// The flag of the control key.
pub const CONTROL: u32 = 0x20;

/// The flag of the alt key.
pub const ALT: u32 = 0x100;

/// The flag of the super key: "windows" on a PC, "command" on a Mac.
pub const SUPER: u32 = 0x800;

/// The modifier keys that are down, as `winit::keyboard::ModifiersState`
/// holds them: one flag per key, in the bits of a `u32`.
#[derive(Clone, Copy, Debug, PartialEq, Eq, Hash, Structural)]
pub struct ModifiersState {
    pub bits: u32,
}

impl ModifiersState {
    pub open spec fn shift(self) -> bool {
        self.bits & SHIFT != 0
    }

    pub open spec fn control(self) -> bool {
        self.bits & CONTROL != 0
    }

    pub open spec fn alt(self) -> bool {
        self.bits & ALT != 0
    }

    pub open spec fn logo(self) -> bool {
        self.bits & SUPER != 0
    }
}

/// The two families of platforms that differ in their shortcut key and in the
/// direction of horizontal scrolling.
#[derive(Clone, Copy, Debug, PartialEq, Eq, Hash, Structural)]
pub enum PlatformFamily {
    /// macOS, where shortcuts use the command key.
    Mac,
    /// Every other platform, where shortcuts use the control key.
    Other,
}

/// The modifier keys as the GUI reads them.
#[derive(Clone, Copy, Debug, PartialEq, Eq, Hash, Structural)]
pub struct Modifiers {
    pub alt: bool,
    pub ctrl: bool,
    pub shift: bool,
    /// The command key of a Mac. Never set on another platform.
    pub mac_cmd: bool,
    /// The key that shortcuts use on this platform.
    pub command: bool,
}

impl Modifiers {
    /// No key down.
    pub open spec fn none() -> Modifiers {
        Modifiers { alt: false, ctrl: false, shift: false, mac_cmd: false, command: false }
    }
}

impl Default for Modifiers {
    /// No key down.
    fn default() -> (modifiers: Modifiers)
        ensures
            modifiers == Modifiers::none(),
    {
        Modifiers { alt: false, ctrl: false, shift: false, mac_cmd: false, command: false }
    }
}

/// What the GUI is told of the keys in `state` on a platform of `family`.
pub open spec fn modifiers_of(state: ModifiersState, family: PlatformFamily) -> Modifiers {
    Modifiers {
        alt: state.alt(),
        ctrl: state.control(),
        shift: state.shift(),
        mac_cmd: family is Mac && state.logo(),
        command: if family is Mac {
            state.logo()
        } else {
            state.control()
        },
    }
}

/// `winit::keyboard::ModifiersState::empty`: the state with no flag set.
#[verifier::external_body]
pub(crate) fn empty_state() -> (state: ModifiersState)
    ensures
        state.bits == 0,
{
    ModifiersState { bits: winit::keyboard::ModifiersState::empty().bits() }
}

/// `winit::keyboard::ModifiersState::shift_key`: whether the state has the
/// shift flag.
#[verifier::external_body]
fn shift_key(state: ModifiersState) -> (held: bool)
    ensures
        held == state.shift(),
{
    winit::keyboard::ModifiersState::from_bits_retain(state.bits).shift_key()
}

/// `winit::keyboard::ModifiersState::control_key`: whether the state has the
/// control flag.
#[verifier::external_body]
fn control_key(state: ModifiersState) -> (held: bool)
    ensures
        held == state.control(),
{
    winit::keyboard::ModifiersState::from_bits_retain(state.bits).control_key()
}

/// `winit::keyboard::ModifiersState::alt_key`: whether the state has the alt
/// flag.
#[verifier::external_body]
fn alt_key(state: ModifiersState) -> (held: bool)
    ensures
        held == state.alt(),
{
    winit::keyboard::ModifiersState::from_bits_retain(state.bits).alt_key()
}

/// `winit::keyboard::ModifiersState::super_key`: whether the state has the
/// super flag.
#[verifier::external_body]
fn super_key(state: ModifiersState) -> (held: bool)
    ensures
        held == state.logo(),
{
    winit::keyboard::ModifiersState::from_bits_retain(state.bits).super_key()
}

/// Maps winit to egui modifier keys.
///
/// Alt, control and shift map directly. On a Mac the super key is both the
/// command key and the shortcut key; elsewhere the control key is the shortcut
/// key and no command key is reported.
pub fn winit_to_egui_modifiers(modifiers: ModifiersState, family: PlatformFamily) -> (m: Modifiers)
    ensures
        m == modifiers_of(modifiers, family),
{
    let ctrl = control_key(modifiers);
    match family {
        PlatformFamily::Mac => {
            let cmd = super_key(modifiers);
            Modifiers {
                alt: alt_key(modifiers),
                ctrl,
                shift: shift_key(modifiers),
                mac_cmd: cmd,
                command: cmd,
            }
        },
        PlatformFamily::Other => Modifiers {
            alt: alt_key(modifiers),
            ctrl,
            shift: shift_key(modifiers),
            mac_cmd: false,
            command: ctrl,
        },
    }
}

} // verus!
