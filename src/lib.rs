//! Logic of a wearable two-tube clock: display multiplexing, the clock and
//! display-mode state machine, the serial time protocol, and the hand-off of
//! hardware handles and signals between interrupt contexts.
pub mod bridge;
pub mod clock;
pub mod display;
pub mod protocol;
