//! What the GUI is given: normalized events, and the batch that collects
//! them between two frames.
use crate::keys::Key;
use crate::modifiers::Modifiers;
use crate::units::{LogicalPos, Scalar, ScreenRect, ScrollDelta};
use vstd::prelude::*;

verus! {

/// A button of the pointer.
#[derive(Clone, Copy, Debug, PartialEq, Eq, Hash, Structural)]
pub enum PointerButton {
    Primary,
    Secondary,
    Middle,
    Extra1,
    Extra2,
}

/// Where a touch contact is in its life, in the GUI's words.
#[derive(Clone, Copy, Debug, PartialEq, Eq, Hash, Structural)]
pub enum ContactPhase {
    Start,
    Move,
    End,
    Cancel,
}

/// The number that the adapter gives a touch device: devices are numbered
/// from 1 in the order in which they are first seen.
#[derive(Clone, Copy, Debug, PartialEq, Eq, Hash, Structural)]
pub struct TouchDeviceId(pub u64);

/// What tells one contact of a device from another.
#[derive(Clone, Copy, Debug, PartialEq, Eq, Hash, Structural)]
pub struct TouchId(pub u64);

/// A normalized input event.
#[derive(Clone, Debug, PartialEq, Eq, Hash)]
pub enum InputEvent<Str = String> {
    Copy,
    Cut,
    Text(Str),
    Key { key: Key, pressed: bool, repeat: bool, modifiers: Modifiers },
    PointerMoved(LogicalPos),
    PointerButton { pos: LogicalPos, button: PointerButton, pressed: bool, modifiers: Modifiers },
    /// The pointer left the window, or the last touch contact was lifted.
    PointerGone,
    Scroll(ScrollDelta),
    /// Zoom by `e` to the power of the vertical points of `delta` divided by
    /// `divisor`.
    Zoom { delta: ScrollDelta, divisor: u32 },
    CompositionStart,
    CompositionUpdate(Str),
    CompositionEnd(Str),
    Touch {
        device_id: TouchDeviceId,
        id: TouchId,
        phase: ContactPhase,
        pos: LogicalPos,
        force: Option<Scalar>,
    },
}

impl View for InputEvent<String> {
    type V = InputEvent<Seq<char>>;

    open spec fn view(&self) -> InputEvent<Seq<char>> {
        match *self {
            InputEvent::Copy => InputEvent::Copy,
            InputEvent::Cut => InputEvent::Cut,
            InputEvent::Text(text) => InputEvent::Text(text@),
            InputEvent::Key { key, pressed, repeat, modifiers } => InputEvent::Key {
                key,
                pressed,
                repeat,
                modifiers,
            },
            InputEvent::PointerMoved(pos) => InputEvent::PointerMoved(pos),
            InputEvent::PointerButton { pos, button, pressed, modifiers } => {
                InputEvent::PointerButton { pos, button, pressed, modifiers }
            },
            InputEvent::PointerGone => InputEvent::PointerGone,
            InputEvent::Scroll(delta) => InputEvent::Scroll(delta),
            InputEvent::Zoom { delta, divisor } => InputEvent::Zoom { delta, divisor },
            InputEvent::CompositionStart => InputEvent::CompositionStart,
            InputEvent::CompositionUpdate(text) => InputEvent::CompositionUpdate(text@),
            InputEvent::CompositionEnd(text) => InputEvent::CompositionEnd(text@),
            InputEvent::Touch { device_id, id, phase, pos, force } => InputEvent::Touch {
                device_id,
                id,
                phase,
                pos,
                force,
            },
        }
    }
}

/// The views of a sequence of events, in the same order.
pub open spec fn event_views(events: Seq<InputEvent>) -> Seq<InputEvent<Seq<char>>> {
    events.map_values(|event: InputEvent| event@)
}

/// The input of one frame: what the platform has reported since the last
/// frame began.
#[derive(Clone, Debug, PartialEq, Eq)]
pub struct RawInput {
    /// The screen rectangle, where it is known or has changed.
    pub screen_rect: Option<ScreenRect>,
    /// The time in seconds since some fixed moment.
    pub time: Option<Scalar>,
    /// The modifier keys that are down.
    pub modifiers: Modifiers,
    /// The events, oldest first.
    pub events: Vec<InputEvent>,
}

/// A [`RawInput`] as contracts read it.
pub struct RawInputView {
    pub screen_rect: Option<ScreenRect>,
    pub time: Option<Scalar>,
    pub modifiers: Modifiers,
    pub events: Seq<InputEvent<Seq<char>>>,
}

impl RawInputView {
    /// What is left behind when the batch is taken: the modifiers stay, the
    /// rest is gone.
    pub open spec fn taken(self) -> RawInputView {
        RawInputView {
            screen_rect: None,
            time: None,
            modifiers: self.modifiers,
            events: Seq::empty(),
        }
    }

    /// The batch with `events` after those it has.
    pub open spec fn with(self, events: Seq<InputEvent<Seq<char>>>) -> RawInputView {
        RawInputView { events: self.events + events, ..self }
    }
}

impl View for RawInput {
    type V = RawInputView;

    open spec fn view(&self) -> RawInputView {
        RawInputView {
            screen_rect: self.screen_rect,
            time: self.time,
            modifiers: self.modifiers,
            events: event_views(self.events@),
        }
    }
}

impl Default for RawInput {
    fn default() -> (input: RawInput)
        ensures
            input@ == (RawInputView {
                screen_rect: None,
                time: None,
                modifiers: Modifiers::none(),
                events: Seq::empty(),
            }),
    {
        RawInput::new()
    }
}

impl RawInput {
    /// The batch to start from: nothing known, nothing pending, no key down.
    pub fn new() -> (input: RawInput)
        ensures
            input@ == (RawInputView {
                screen_rect: None,
                time: None,
                modifiers: Modifiers::none(),
                events: Seq::empty(),
            }),
    {
        let input = RawInput {
            screen_rect: None,
            time: None,
            modifiers: Modifiers::default(),
            events: Vec::new(),
        };
        assert(event_views(input.events@) =~= Seq::empty());
        input
    }

    /// Hands the batch over and leaves an empty one in its place. The events,
    /// the screen rectangle and the time move to the result; the modifiers
    /// are copied, since the keys stay down.
    pub fn take(&mut self) -> (batch: RawInput)
        ensures
            batch@ == old(self)@,
            final(self)@ == old(self)@.taken(),
    {
        let mut events: Vec<InputEvent> = Vec::new();
        std::mem::swap(&mut events, &mut self.events);
        let batch = RawInput {
            screen_rect: self.screen_rect,
            time: self.time,
            modifiers: self.modifiers,
            events,
        };
        self.screen_rect = None;
        self.time = None;
        assert(event_views(self.events@) =~= Seq::empty());
        batch
    }
}

} // verus!
