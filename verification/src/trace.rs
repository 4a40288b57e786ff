//! What holds of the adapter over any sequence of events.
use crate::devices::{
    device_number, lemma_numbers_differ, lemma_register_keeps, lemma_register_knows, register,
};
use crate::event::{DeviceId, PlatformEvent, Touch};
use crate::input::{InputEvent, PointerButton};
use crate::model::{touch_event, PlatformView};
use crate::touch::{emulated_pointer, falls, lemma_edges, lifts, rises};
use crate::units::LogicalPos;
use vstd::prelude::*;

verus! {

/// The primary button of the pointer goes down.
pub open spec fn is_press(event: InputEvent<Seq<char>>) -> bool {
    event matches InputEvent::PointerButton { button, pressed, .. } && button
        == PointerButton::Primary && pressed
}

/// The primary button of the pointer comes up.
pub open spec fn is_release(event: InputEvent<Seq<char>>) -> bool {
    event matches InputEvent::PointerButton { button, pressed, .. } && button
        == PointerButton::Primary && !pressed
}

/// How often the primary button goes down in `events`.
pub open spec fn presses(events: Seq<InputEvent<Seq<char>>>) -> nat
    decreases events.len(),
{
    if events.len() == 0 {
        0
    } else {
        presses(events.drop_last()) + if is_press(events.last()) {
            1nat
        } else {
            0nat
        }
    }
}

/// How often the primary button comes up in `events`.
pub open spec fn releases(events: Seq<InputEvent<Seq<char>>>) -> nat
    decreases events.len(),
{
    if events.len() == 0 {
        0
    } else {
        releases(events.drop_last()) + if is_release(events.last()) {
            1nat
        } else {
            0nat
        }
    }
}

/// The presses and the releases of two runs of events add up.
pub proof fn lemma_count_add(first: Seq<InputEvent<Seq<char>>>, second: Seq<InputEvent<Seq<char>>>)
    ensures
        presses(first + second) == presses(first) + presses(second),
        releases(first + second) == releases(first) + releases(second),
    decreases second.len(),
{
    if second.len() > 0 {
        assert((first + second).drop_last() =~= first + second.drop_last());
        lemma_count_add(first, second.drop_last());
    }
}

/// Whether every event of `events` reports a touch contact.
pub open spec fn all_touches(events: Seq<PlatformEvent<Seq<char>>>) -> bool {
    forall|i: int| 0 <= i < events.len() ==> (#[trigger] events[i]) is Touch
}

impl PlatformView {
    /// 1 while the emulated pointer is pressed, that is while a touch contact
    /// is down, and 0 otherwise.
    pub open spec fn pressed(self) -> nat {
        if self.touch_pointer_pressed > 0 {
            1
        } else {
            0
        }
    }

    /// The state after the events of `events`, in their order.
    pub open spec fn run(self, events: Seq<PlatformEvent<Seq<char>>>) -> PlatformView
        decreases events.len(),
    {
        if events.len() == 0 {
            self
        } else {
            self.run(events.drop_last()).handle(events.last())
        }
    }

    /// What the events of `events` add to the pending input, one after the
    /// other.
    pub open spec fn emitted_by(self, events: Seq<PlatformEvent<Seq<char>>>) -> Seq<
        InputEvent<Seq<char>>,
    >
        decreases events.len(),
    {
        if events.len() == 0 {
            Seq::empty()
        } else {
            self.emitted_by(events.drop_last()) + self.run(events.drop_last()).emitted(
                events.last(),
            )
        }
    }

    /// How often the count of contacts leaves zero in the course of `events`.
    pub open spec fn rising_edges(self, events: Seq<PlatformEvent<Seq<char>>>) -> nat
        decreases events.len(),
    {
        if events.len() == 0 {
            0
        } else {
            let before = self.run(events.drop_last());
            self.rising_edges(events.drop_last()) + if before.pressed() == 0 && before.handle(
                events.last(),
            ).pressed() == 1 {
                1nat
            } else {
                0nat
            }
        }
    }

    /// How often the count of contacts returns to zero in the course of
    /// `events`.
    pub open spec fn falling_edges(self, events: Seq<PlatformEvent<Seq<char>>>) -> nat
        decreases events.len(),
    {
        if events.len() == 0 {
            0
        } else {
            let before = self.run(events.drop_last());
            self.falling_edges(events.drop_last()) + if before.pressed() == 1 && before.handle(
                events.last(),
            ).pressed() == 0 {
                1nat
            } else {
                0nat
            }
        }
    }

    /// An event only ever adds to the pending input: what was pending stays,
    /// in its order, and what the event means comes after it.
    pub proof fn lemma_handle_appends(self, event: PlatformEvent<Seq<char>>)
        ensures
            self.handle(event).raw_input.events == self.raw_input.events + self.emitted(event),
            self.raw_input.events.len() <= self.handle(event).raw_input.events.len(),
    {
    }

    /// What a report of a touch contact adds to the pending input: the
    /// contact's own event, and then what the emulated pointer does.
    pub proof fn lemma_touch_emits(self, touch: Touch)
        ensures
            self.emitted(PlatformEvent::Touch(touch)) == seq![
                touch_event(register(self.devices, touch.device_id), touch, self.scale_factor),
            ] + emulated_pointer(
                self.touch_pointer_pressed,
                touch.phase,
                LogicalPos::of(touch.location, self.scale_factor),
            ),
    {
        let added = seq![
            touch_event(register(self.devices, touch.device_id), touch, self.scale_factor),
        ] + emulated_pointer(
            self.touch_pointer_pressed,
            touch.phase,
            LogicalPos::of(touch.location, self.scale_factor),
        );
        assert((self.raw_input.events + added).skip(self.raw_input.events.len() as int)
            =~= added);
    }

    /// A report of a touch contact presses the emulated pointer's button
    /// once if it takes the count of contacts from zero, releases it once if
    /// it takes the count back to zero, and leaves the button alone in every
    /// other case.
    pub proof fn lemma_touch_edges(self, touch: Touch)
        ensures
            presses(self.emitted(PlatformEvent::Touch(touch))) == if rises(
                self.touch_pointer_pressed,
                touch.phase,
            ) {
                1nat
            } else {
                0nat
            },
            releases(self.emitted(PlatformEvent::Touch(touch))) == if falls(
                self.touch_pointer_pressed,
                touch.phase,
            ) {
                1nat
            } else {
                0nat
            },
    {
        self.lemma_touch_emits(touch);
        let pos = LogicalPos::of(touch.location, self.scale_factor);
        let own = seq![
            touch_event(register(self.devices, touch.device_id), touch, self.scale_factor),
        ];
        let pointer = emulated_pointer(self.touch_pointer_pressed, touch.phase, pos);
        lemma_count_add(own, pointer);
        reveal_with_fuel(presses, 3);
        reveal_with_fuel(releases, 3);
        lemma_edges(self.touch_pointer_pressed, touch.phase);
    }

    /// The events of a sequence add to the pending input what each of them
    /// adds, in their order, and nothing else: none is lost and none comes
    /// twice.
    pub proof fn lemma_run_appends(self, events: Seq<PlatformEvent<Seq<char>>>)
        ensures
            self.run(events).raw_input.events == self.raw_input.events + self.emitted_by(events),
        decreases events.len(),
    {
        if events.len() == 0 {
            assert(self.raw_input.events + Seq::<InputEvent<Seq<char>>>::empty()
                =~= self.raw_input.events);
        } else {
            let before = self.run(events.drop_last());
            self.lemma_run_appends(events.drop_last());
            before.lemma_handle_appends(events.last());
            assert((self.raw_input.events + self.emitted_by(events.drop_last())) + before.emitted(
                events.last(),
            ) =~= self.raw_input.events + (self.emitted_by(events.drop_last()) + before.emitted(
                events.last(),
            )));
        }
    }

    /// Over any sequence of touch reports, on whatever devices and contacts
    /// and in whatever order, the button of the emulated pointer goes down
    /// exactly once each time the count of contacts leaves zero, and comes up
    /// exactly once each time the count returns to zero.
    pub proof fn lemma_button_follows_count(self, events: Seq<PlatformEvent<Seq<char>>>)
        requires
            all_touches(events),
        ensures
            presses(self.emitted_by(events)) == self.rising_edges(events),
            releases(self.emitted_by(events)) == self.falling_edges(events),
        decreases events.len(),
    {
        if events.len() > 0 {
            let before = self.run(events.drop_last());
            assert(all_touches(events.drop_last()));
            self.lemma_button_follows_count(events.drop_last());
            lemma_count_add(self.emitted_by(events.drop_last()), before.emitted(events.last()));
            let touch = events.last()->Touch_0;
            before.lemma_touch_edges(touch);
        }
    }

    /// Over any sequence of touch reports the releases of the emulated
    /// pointer's button never run ahead of its presses: the button comes up
    /// only if it was down. So a window system that ends more contacts than
    /// it started gets no second release.
    pub proof fn lemma_no_double_release(self, events: Seq<PlatformEvent<Seq<char>>>)
        requires
            all_touches(events),
        ensures
            presses(self.emitted_by(events)) + self.pressed() == releases(self.emitted_by(events))
                + self.run(events).pressed(),
        decreases events.len(),
    {
        if events.len() > 0 {
            let before = self.run(events.drop_last());
            assert(all_touches(events.drop_last()));
            self.lemma_no_double_release(events.drop_last());
            lemma_count_add(self.emitted_by(events.drop_last()), before.emitted(events.last()));
            let touch = events.last()->Touch_0;
            before.lemma_touch_edges(touch);
        }
    }

    /// A report that ends a touch contact while none is down leaves the count
    /// of contacts at zero and moves no button: all it adds to the pending
    /// input is the contact's own event.
    pub proof fn lemma_unbalanced_end(self, touch: Touch)
        requires
            self.touch_pointer_pressed == 0,
            lifts(touch.phase),
        ensures
            self.handle(PlatformEvent::Touch(touch)).touch_pointer_pressed == 0,
            self.emitted(PlatformEvent::Touch(touch)) == seq![
                touch_event(register(self.devices, touch.device_id), touch, self.scale_factor),
            ],
    {
        self.lemma_touch_emits(touch);
    }

    /// An event never takes a device out of the table and never changes a
    /// number: a device that is known keeps its number.
    pub proof fn lemma_handle_keeps_numbers(self, event: PlatformEvent<Seq<char>>, id: DeviceId)
        requires
            self.devices.contains(id),
        ensures
            self.handle(event).devices.contains(id),
            device_number(self.handle(event).devices, id) == device_number(self.devices, id),
    {
        if let PlatformEvent::Touch(touch) = event {
            lemma_register_keeps(self.devices, touch.device_id, id);
            if !self.devices.contains(touch.device_id) {
                let place = choose|i: int| 0 <= i < self.devices.len() && self.devices[i] == id;
                assert(self.devices.push(touch.device_id)[place] == id);
            }
        }
    }

    /// The number of a device is stable: over any sequence of events a device
    /// that is known stays known under the number it has.
    pub proof fn lemma_numbers_are_stable(self, events: Seq<PlatformEvent<Seq<char>>>, id: DeviceId)
        requires
            self.devices.contains(id),
        ensures
            self.run(events).devices.contains(id),
            device_number(self.run(events).devices, id) == device_number(self.devices, id),
        decreases events.len(),
    {
        if events.len() > 0 {
            self.lemma_numbers_are_stable(events.drop_last(), id);
            self.run(events.drop_last()).lemma_handle_keeps_numbers(events.last(), id);
        }
    }

    /// No device is entered into the table twice, whatever the events.
    pub proof fn lemma_no_device_twice(self, events: Seq<PlatformEvent<Seq<char>>>)
        requires
            self.devices.no_duplicates(),
        ensures
            self.run(events).devices.no_duplicates(),
        decreases events.len(),
    {
        if events.len() > 0 {
            self.lemma_no_device_twice(events.drop_last());
            if let PlatformEvent::Touch(touch) = events.last() {
                lemma_register_knows(self.run(events.drop_last()).devices, touch.device_id);
            }
        }
    }

    /// Once a device has reported a touch contact the table knows it, and the
    /// contact's event carries the device's number.
    pub proof fn lemma_touch_is_numbered(self, touch: Touch)
        ensures
            self.handle(PlatformEvent::Touch(touch)).devices.contains(touch.device_id),
            self.emitted(PlatformEvent::Touch(touch))[0] == touch_event(
                self.handle(PlatformEvent::Touch(touch)).devices,
                touch,
                self.scale_factor,
            ),
    {
        self.lemma_touch_emits(touch);
        lemma_register_knows(self.devices, touch.device_id);
    }

    /// The same device always reports under the same number: whatever happens
    /// between two reports of touch contacts of one device, the events of the
    /// two carry one number.
    pub proof fn lemma_same_device_same_number(
        self,
        first: Touch,
        between: Seq<PlatformEvent<Seq<char>>>,
        second: Touch,
    )
        requires
            first.device_id == second.device_id,
        ensures
            self.emitted(PlatformEvent::Touch(first))[0] is Touch,
            self.handle(PlatformEvent::Touch(first)).run(between).emitted(
                PlatformEvent::Touch(second),
            )[0] is Touch,
            self.handle(PlatformEvent::Touch(first)).run(between).emitted(
                PlatformEvent::Touch(second),
            )[0]->Touch_device_id == self.emitted(PlatformEvent::Touch(first))[0]->Touch_device_id,
    {
        let seen = self.handle(PlatformEvent::Touch(first));
        let later = seen.run(between);
        self.lemma_touch_is_numbered(first);
        seen.lemma_numbers_are_stable(between, first.device_id);
        later.lemma_touch_is_numbered(second);
        later.lemma_handle_keeps_numbers(PlatformEvent::Touch(second), second.device_id);
    }

    /// Two devices never report under one number: whatever happens between
    /// the reports of touch contacts of two different devices, the events of
    /// the two carry different numbers. The table is taken to be one that a
    /// machine can hold.
    pub proof fn lemma_other_device_other_number(
        self,
        first: Touch,
        between: Seq<PlatformEvent<Seq<char>>>,
        second: Touch,
    )
        requires
            first.device_id != second.device_id,
            self.handle(PlatformEvent::Touch(first)).run(between).handle(
                PlatformEvent::Touch(second),
            ).devices.len() <= u64::MAX,
        ensures
            self.emitted(PlatformEvent::Touch(first))[0] is Touch,
            self.handle(PlatformEvent::Touch(first)).run(between).emitted(
                PlatformEvent::Touch(second),
            )[0] is Touch,
            self.handle(PlatformEvent::Touch(first)).run(between).emitted(
                PlatformEvent::Touch(second),
            )[0]->Touch_device_id != self.emitted(PlatformEvent::Touch(first))[0]->Touch_device_id,
    {
        let seen = self.handle(PlatformEvent::Touch(first));
        let later = seen.run(between);
        let last = later.handle(PlatformEvent::Touch(second));
        self.lemma_touch_is_numbered(first);
        seen.lemma_numbers_are_stable(between, first.device_id);
        later.lemma_touch_is_numbered(second);
        later.lemma_handle_keeps_numbers(PlatformEvent::Touch(second), first.device_id);
        lemma_numbers_differ(last.devices, first.device_id, second.device_id);
    }
}

} // verus!
