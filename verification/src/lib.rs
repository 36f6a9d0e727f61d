//! Per-frame bookkeeping for the primary pointing device.
//!
//! A [`PrimaryPointerState`] consumes a stream of pointer events, keeps a
//! persistent set of held buttons, and answers per-frame queries such as
//! "was this button just pressed" and "is this button currently down".

pub mod buttons;
pub mod events;
pub mod laws;
pub mod state;

pub use buttons::PointerButton;
pub use buttons::PointerButtons;
pub use events::PointerButtonEvent;
pub use events::PointerEvent;
pub use events::PointerInfo;
pub use state::PrimaryPointerState;
