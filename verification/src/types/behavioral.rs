//! Behavioural signals: pointer, scroll and click events, and load timing.

use vstd::prelude::*;

verus! {

/// Most mouse events a session may carry.
pub const MAX_MOUSE_EVENTS: usize = 1000;

/// Most scroll events a session may carry.
pub const MAX_SCROLL_EVENTS: usize = 100;

/// Most click events a session may carry.
pub const MAX_CLICK_EVENTS: usize = 100;

/// The first `bound` items of a list, or all of it where it has no more.
pub open spec fn bounded<T>(items: Seq<T>, bound: usize) -> Seq<T> {
    if items.len() <= bound {
        items
    } else {
        items.take(bound as int)
    }
}

/// Kind of a mouse event.
#[derive(Debug, Clone, Copy, PartialEq, Eq)]
pub enum MouseEventType {
    /// Pointer moved.
    Move,
    /// Button clicked.
    Click,
    /// Button pressed.
    Down,
    /// Button released.
    Up,
}

/// Which mouse button a click used.
#[derive(Debug, Clone, Copy, PartialEq, Eq)]
pub enum MouseButton {
    /// Left button.
    Left,
    /// Middle button (wheel).
    Middle,
    /// Right button.
    Right,
    /// Any other button, by its number.
    Other(u8),
}

/// One mouse event.
#[derive(Debug, Clone, PartialEq)]
pub struct MouseEvent {
    /// Milliseconds since the session began.
    pub timestamp_ms: u64,
    /// Horizontal position.
    pub x: i32,
    /// Vertical position.
    pub y: i32,
    /// What happened.
    pub event_type: MouseEventType,
}

/// One scroll event.
#[derive(Debug, Clone, PartialEq)]
pub struct ScrollEvent {
    /// Milliseconds since the session began.
    pub timestamp_ms: u64,
    /// Horizontal scroll position.
    pub x: i32,
    /// Vertical scroll position.
    pub y: i32,
    /// Horizontal scroll distance.
    pub delta_x: i32,
    /// Vertical scroll distance.
    pub delta_y: i32,
}

/// One click event.
#[derive(Debug, Clone, PartialEq, Eq)]
pub struct ClickEvent {
    /// Milliseconds since the session began.
    pub timestamp_ms: u64,
    /// Horizontal position.
    pub x: i32,
    /// Vertical position.
    pub y: i32,
    /// The button used.
    pub button: MouseButton,
}

/// Page-load and interaction timing, each in milliseconds where measured.
#[derive(Debug, Clone, PartialEq)]
pub struct TimingMetrics {
    /// Time until the DOM content was loaded.
    pub dom_content_loaded_ms: Option<u64>,
    /// Time until the page was fully loaded.
    pub load_time_ms: Option<u64>,
    /// Time to the first byte of the response.
    pub time_to_first_byte_ms: Option<u64>,
    /// Time to the first interaction.
    pub time_to_first_interaction_ms: Option<u64>,
}

impl Default for TimingMetrics {
    fn default() -> (timing: TimingMetrics)
        ensures
            timing.dom_content_loaded_ms is None,
            timing.load_time_ms is None,
            timing.time_to_first_byte_ms is None,
            timing.time_to_first_interaction_ms is None,
    {
        TimingMetrics {
            dom_content_loaded_ms: None,
            load_time_ms: None,
            time_to_first_byte_ms: None,
            time_to_first_interaction_ms: None,
        }
    }
}

/// Behavioural signals of one session. Each event list is bounded, so that a
/// client cannot make the gateway hold unbounded input.
#[derive(Debug, Clone, PartialEq)]
pub struct BehavioralSignals {
    /// Mouse events, at most `MAX_MOUSE_EVENTS`.
    pub mouse_events: Vec<MouseEvent>,
    /// Scroll events, at most `MAX_SCROLL_EVENTS`.
    pub scroll_events: Vec<ScrollEvent>,
    /// Click events, at most `MAX_CLICK_EVENTS`.
    pub click_events: Vec<ClickEvent>,
    /// Timing metrics.
    pub timing: TimingMetrics,
}

impl BehavioralSignals {
    /// Whether every event list is within its bound.
    pub open spec fn within_bounds(&self) -> bool {
        &&& self.mouse_events@.len() <= MAX_MOUSE_EVENTS
        &&& self.scroll_events@.len() <= MAX_SCROLL_EVENTS
        &&& self.click_events@.len() <= MAX_CLICK_EVENTS
    }

    /// Checks the bounds of the three event lists.
    pub fn is_within_bounds(&self) -> (ok: bool)
        ensures
            ok == self.within_bounds(),
    {
        self.mouse_events.len() <= MAX_MOUSE_EVENTS && self.scroll_events.len()
            <= MAX_SCROLL_EVENTS && self.click_events.len() <= MAX_CLICK_EVENTS
    }

    /// Builds behavioural signals, rejecting any event list over its bound.
    pub fn new(
        mouse_events: Vec<MouseEvent>,
        scroll_events: Vec<ScrollEvent>,
        click_events: Vec<ClickEvent>,
        timing: TimingMetrics,
    ) -> (signals: Option<BehavioralSignals>)
        ensures
            signals is Some <==> (mouse_events@.len() <= MAX_MOUSE_EVENTS && scroll_events@.len()
                <= MAX_SCROLL_EVENTS && click_events@.len() <= MAX_CLICK_EVENTS),
            signals matches Some(s) ==> s.within_bounds() && s.mouse_events == mouse_events
                && s.scroll_events == scroll_events && s.click_events == click_events && s.timing
                == timing,
    {
        let signals = BehavioralSignals { mouse_events, scroll_events, click_events, timing };
        if signals.is_within_bounds() {
            Some(signals)
        } else {
            None
        }
    }

    /// Cuts each event list down to its bound, keeping the earliest events.
    pub fn truncate_to_bounds(&mut self)
        ensures
            final(self).within_bounds(),
            final(self).mouse_events@ == bounded(old(self).mouse_events@, MAX_MOUSE_EVENTS),
            final(self).scroll_events@ == bounded(old(self).scroll_events@, MAX_SCROLL_EVENTS),
            final(self).click_events@ == bounded(old(self).click_events@, MAX_CLICK_EVENTS),
            final(self).timing == old(self).timing,
    {
        if self.mouse_events.len() > MAX_MOUSE_EVENTS {
            self.mouse_events.truncate(MAX_MOUSE_EVENTS);
        }
        if self.scroll_events.len() > MAX_SCROLL_EVENTS {
            self.scroll_events.truncate(MAX_SCROLL_EVENTS);
        }
        if self.click_events.len() > MAX_CLICK_EVENTS {
            self.click_events.truncate(MAX_CLICK_EVENTS);
        }
    }
}

} // verus!
