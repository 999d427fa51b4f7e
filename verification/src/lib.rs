//! Protocol logic for a four-channel PWM / ADC I/O expansion board that sits
//! on a two-wire serial bus behind a fixed register map.
//!
//! This crate holds everything about the board that can be stated and proved
//! without touching the bus itself: the register map, the identity check that
//! gates construction, the wire encodings of duty cycle and frequency, the
//! big-endian decoding of ADC samples, and the exact write sequence that puts
//! the board into its quiescent state. An unverified companion crate performs
//! the raw bus transactions and feeds their bytes through these functions.

pub mod channel;
pub mod error;
pub mod protocol;
pub mod regfile;
pub mod registers;

pub use channel::Channel;
pub use error::BoardError;
pub use protocol::RegWrite;
pub use registers::Register;
