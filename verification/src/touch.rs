//! One pointer out of many touch contacts.
//!
//! The window system reports each contact by itself; the GUI knows one
//! pointer. The contacts that are down are counted, and the pointer's primary
//! button follows the count: it goes down when the count leaves zero and comes
//! up when the count returns to zero.
use crate::event::{Force, TouchPhase};
use crate::input::{ContactPhase, InputEvent, PointerButton};
use crate::modifiers::Modifiers;
use crate::units::{LogicalPos, Scalar};
use vstd::prelude::*;

verus! {

/// The phase of a contact in the GUI's words.
pub open spec fn contact_phase(phase: TouchPhase) -> ContactPhase {
    match phase {
        TouchPhase::Started => ContactPhase::Start,
        TouchPhase::Moved => ContactPhase::Move,
        TouchPhase::Ended => ContactPhase::End,
        TouchPhase::Cancelled => ContactPhase::Cancel,
    }
}

/// The force that the GUI is told of. A contact without a force is reported
/// with the force zero, which the GUI cannot tell from a contact that does not
/// press at all.
pub open spec fn force_of(force: Option<Force>) -> Scalar {
    match force {
        Some(Force::Calibrated { force, .. }) => force,
        Some(Force::Normalized(force)) => force,
        None => Scalar::zero(),
    }
}

/// A report that ends a contact.
pub open spec fn lifts(phase: TouchPhase) -> bool {
    phase is Ended || phase is Cancelled
}

/// The count of contacts that are down, after a report of `phase`. A start
/// adds one, until the count can hold no more. An end or a cancel takes one
/// away, but not from zero: a window system that ends a contact it never
/// started leaves the count at zero.
pub open spec fn pressed_after(pressed: u32, phase: TouchPhase) -> u32 {
    match phase {
        TouchPhase::Started => if pressed < u32::MAX {
            (pressed + 1) as u32
        } else {
            pressed
        },
        TouchPhase::Moved => pressed,
        TouchPhase::Ended | TouchPhase::Cancelled => if pressed > 0 {
            (pressed - 1) as u32
        } else {
            0
        },
    }
}

/// A report ends a contact although none is down.
pub open spec fn unbalanced(pressed: u32, phase: TouchPhase) -> bool {
    lifts(phase) && pressed == 0
}

/// The count leaves zero.
pub open spec fn rises(pressed: u32, phase: TouchPhase) -> bool {
    pressed == 0 && pressed_after(pressed, phase) > 0
}

/// The count returns to zero.
pub open spec fn falls(pressed: u32, phase: TouchPhase) -> bool {
    pressed > 0 && pressed_after(pressed, phase) == 0
}

/// The primary button goes down or comes up at `pos`, with no modifier.
pub open spec fn primary_button(pos: LogicalPos, pressed: bool) -> InputEvent<Seq<char>> {
    InputEvent::PointerButton {
        pos,
        button: PointerButton::Primary,
        pressed,
        modifiers: Modifiers::none(),
    }
}

/// What the one pointer does on a report of `phase` at `pos`, while `pressed`
/// contacts are down. A move moves the pointer, whatever the count. The first
/// contact presses the primary button. The last contact to go releases it and
/// then takes the pointer away, in this order.
pub open spec fn emulated_pointer(pressed: u32, phase: TouchPhase, pos: LogicalPos) -> Seq<
    InputEvent<Seq<char>>,
> {
    if phase is Moved {
        seq![InputEvent::PointerMoved(pos)]
    } else if rises(pressed, phase) {
        seq![primary_button(pos, true)]
    } else if falls(pressed, phase) {
        seq![primary_button(pos, false), InputEvent::PointerGone]
    } else {
        Seq::empty()
    }
}

/// The primary button goes down exactly when a contact starts while none is
/// down, and comes up exactly when the only contact that is down ends. A
/// report that ends a contact while none is down leaves the count at zero and
/// moves no button.
pub proof fn lemma_edges(pressed: u32, phase: TouchPhase)
    ensures
        rises(pressed, phase) <==> pressed == 0 && phase is Started,
        falls(pressed, phase) <==> pressed == 1 && lifts(phase),
        unbalanced(pressed, phase) ==> pressed_after(pressed, phase) == 0 && !falls(pressed, phase)
            && !rises(pressed, phase),
{
}

} // verus!
