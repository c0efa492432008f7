//! Domain types: the signals a browser session carries and the fingerprint
//! computed from them.

pub mod behavioral;
pub mod browser;
pub mod network;
pub mod session;

pub use behavioral::{
    BehavioralSignals, ClickEvent, MouseButton, MouseEvent, MouseEventType, ScrollEvent,
    TimingMetrics, MAX_CLICK_EVENTS, MAX_MOUSE_EVENTS, MAX_SCROLL_EVENTS,
};
pub use browser::{BrowserSignals, ScreenInfo};
pub use network::{Header, HttpVersion, NetworkSignals};
pub use session::{Fingerprint, FingerprintComponents, SignalBundle};
