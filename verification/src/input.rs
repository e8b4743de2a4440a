//! The event bridge: the events that a platform can report, and the input
//! snapshot that they accumulate into between two frames.

use crate::scalar::{Scalar, ONE_BITS};
use vstd::prelude::*;

verus! {

/// An input event, freed of the platform that reported it. Positions and
/// sizes are in logical pixels.
#[derive(Clone, Copy, Debug, PartialEq, Eq)]
pub enum EventBridge {
    /// The pointer is at this position.
    MouseMove { x: Scalar, y: Scalar },
    /// The primary button went down.
    MouseDown,
    /// The primary button went up.
    MouseUp,
    /// The user scrolled by this much.
    Scroll { x: Scalar, y: Scalar },
    /// The screen has this size.
    Resize { w: Scalar, h: Scalar },
    /// One logical pixel is this many physical pixels.
    PppChanged(Scalar),
    /// Anything else: it changes nothing.
    Ignore,
}

/// The input of one frame of the UI engine.
#[derive(Clone, Copy, Debug, PartialEq, Eq)]
pub struct FrameInput {
    /// Is the primary button down?
    pub mouse_down: bool,
    /// Where the pointer is, once it has been seen.
    pub mouse_pos: Option<(Scalar, Scalar)>,
    /// How far the user scrolled.
    pub scroll_delta: (Scalar, Scalar),
    /// Size of the screen.
    pub screen_size: (Scalar, Scalar),
    /// Physical pixels per logical pixel.
    pub pixels_per_point: Scalar,
    /// Nanoseconds since the renderer was started.
    pub time: u64,
}

impl FrameInput {
    /// The snapshot that nothing has been reported to: no pointer, button
    /// up, no scroll, an empty screen, one physical pixel per logical pixel,
    /// and the given time.
    pub open spec fn fresh(time: u64) -> FrameInput {
        FrameInput {
            mouse_down: false,
            mouse_pos: None,
            scroll_delta: (Scalar { bits: 0 }, Scalar { bits: 0 }),
            screen_size: (Scalar { bits: 0 }, Scalar { bits: 0 }),
            pixels_per_point: Scalar { bits: ONE_BITS },
            time,
        }
    }

    /// The snapshot after an event. Every event overwrites what it speaks
    /// of and leaves the rest: the last report of a frame wins, and scroll
    /// reports do not add up.
    pub open spec fn applied(self, event: EventBridge) -> FrameInput {
        match event {
            EventBridge::MouseMove { x, y } => FrameInput { mouse_pos: Some((x, y)), ..self },
            EventBridge::MouseDown => FrameInput { mouse_down: true, ..self },
            EventBridge::MouseUp => FrameInput { mouse_down: false, ..self },
            EventBridge::Scroll { x, y } => FrameInput { scroll_delta: (x, y), ..self },
            EventBridge::Resize { w, h } => FrameInput { screen_size: (w, h), ..self },
            EventBridge::PppChanged(ppp) => FrameInput { pixels_per_point: ppp, ..self },
            EventBridge::Ignore => self,
        }
    }

    /// The same snapshot at another time.
    pub open spec fn at(self, time: u64) -> FrameInput {
        FrameInput { time, ..self }
    }

    /// A fresh snapshot at the given time, see [`FrameInput::fresh`].
    pub fn new(time: u64) -> (input: FrameInput)
        ensures
            input == FrameInput::fresh(time),
    {
        FrameInput {
            mouse_down: false,
            mouse_pos: None,
            scroll_delta: (Scalar::zero(), Scalar::zero()),
            screen_size: (Scalar::zero(), Scalar::zero()),
            pixels_per_point: Scalar::one(),
            time,
        }
    }

    /// Records an event, see [`FrameInput::applied`].
    pub fn apply(&mut self, event: EventBridge)
        ensures
            *final(self) == old(self).applied(event),
    {
        match event {
            EventBridge::MouseMove { x, y } => {
                self.mouse_pos = Some((x, y));
            },
            EventBridge::MouseDown => {
                self.mouse_down = true;
            },
            EventBridge::MouseUp => {
                self.mouse_down = false;
            },
            EventBridge::Scroll { x, y } => {
                self.scroll_delta = (x, y);
            },
            EventBridge::Resize { w, h } => {
                self.screen_size = (w, h);
            },
            EventBridge::PppChanged(ppp) => {
                self.pixels_per_point = ppp;
            },
            EventBridge::Ignore => {},
        }
    }

    /// Hands the snapshot out for the frame that begins at `time` and
    /// starts the next one: the snapshot returned is the one accumulated,
    /// stamped with `time`, and what stays behind is fresh but for that time.
    pub fn take(&mut self, time: u64) -> (snapshot: FrameInput)
        ensures
            snapshot == old(self).at(time),
            *final(self) == FrameInput::fresh(time),
    {
        let snapshot = FrameInput { time, ..*self };
        *self = FrameInput::new(time);
        snapshot
    }
}

impl Default for FrameInput {
    fn default() -> (input: FrameInput)
        ensures
            input == FrameInput::fresh(0),
    {
        FrameInput::new(0)
    }
}

/// The snapshot after a run of events, in order.
pub open spec fn applied_all(input: FrameInput, events: Seq<EventBridge>) -> FrameInput
    decreases events.len(),
{
    if events.len() == 0 {
        input
    } else {
        applied_all(input, events.drop_last()).applied(events.last())
    }
}

/// The size of the last resize among the events, if there is one.
pub open spec fn last_resize(events: Seq<EventBridge>) -> Option<(Scalar, Scalar)>
    decreases events.len(),
{
    if events.len() == 0 {
        None
    } else {
        match events.last() {
            EventBridge::Resize { w, h } => Some((w, h)),
            _ => last_resize(events.drop_last()),
        }
    }
}

/// The density of the last density change among the events, if there is one.
pub open spec fn last_density(events: Seq<EventBridge>) -> Option<Scalar>
    decreases events.len(),
{
    if events.len() == 0 {
        None
    } else {
        match events.last() {
            EventBridge::PppChanged(ppp) => Some(ppp),
            _ => last_density(events.drop_last()),
        }
    }
}

/// The last scroll among the events, if there is one.
pub open spec fn last_scroll(events: Seq<EventBridge>) -> Option<(Scalar, Scalar)>
    decreases events.len(),
{
    if events.len() == 0 {
        None
    } else {
        match events.last() {
            EventBridge::Scroll { x, y } => Some((x, y)),
            _ => last_scroll(events.drop_last()),
        }
    }
}

/// The last pointer position among the events, if there is one.
pub open spec fn last_position(events: Seq<EventBridge>) -> Option<(Scalar, Scalar)>
    decreases events.len(),
{
    if events.len() == 0 {
        None
    } else {
        match events.last() {
            EventBridge::MouseMove { x, y } => Some((x, y)),
            _ => last_position(events.drop_last()),
        }
    }
}

/// The last report wins: after any run of events the snapshot holds, of
/// each thing, what the last event that spoke of it said, and what it held
/// before where none did.
pub proof fn lemma_last_write_wins(input: FrameInput, events: Seq<EventBridge>)
    ensures
        applied_all(input, events).screen_size == match last_resize(events) {
            Some(size) => size,
            None => input.screen_size,
        },
        applied_all(input, events).pixels_per_point == match last_density(events) {
            Some(ppp) => ppp,
            None => input.pixels_per_point,
        },
        applied_all(input, events).scroll_delta == match last_scroll(events) {
            Some(delta) => delta,
            None => input.scroll_delta,
        },
        applied_all(input, events).mouse_pos == match last_position(events) {
            Some(position) => Some(position),
            None => input.mouse_pos,
        },
        applied_all(input, events).time == input.time,
    decreases events.len(),
{
    if events.len() > 0 {
        lemma_last_write_wins(input, events.drop_last());
    }
}

/// An event that is not recognized changes nothing.
pub proof fn lemma_ignore_changes_nothing(input: FrameInput)
    ensures
        input.applied(EventBridge::Ignore) == input,
{
}

} // verus!
