//! The raw-mode key decoder: a state machine that consumes one terminal byte
//! at a time and resolves multi-byte ANSI CSI escape sequences into logical
//! key events, with no buffering and no push-back. A malformed sequence
//! degrades to `Unrecognized` rather than failing.

use vstd::prelude::*;

verus! {

/// A logical editing event, produced by the decoder and consumed once by the
/// line editor.
#[derive(Debug, Clone, Copy, PartialEq, Eq, Structural)]
pub enum KeyEvent {
    /// One raw printable byte. Multi-byte text encodings are not assembled
    /// here: each decode step carries a single byte.
    Character(u8),
    MoveLeft,
    MoveRight,
    MoveHome,
    MoveEnd,
    DeleteBackward,
    DeleteForward,
    Enter,
    Interrupt,
    EndOfTransmission,
    Unrecognized,
}

/// Where the decoder stands inside an escape sequence.
#[derive(Debug, Clone, Copy, PartialEq, Eq, Structural)]
pub enum DecoderState {
    /// Not inside an escape sequence.
    Idle,
    /// An ESC byte was seen; a `[` must follow to open a CSI sequence.
    EscapeSeen,
    /// `ESC [` was seen; the next byte selects the key or a parameter.
    CsiStarted,
    /// `ESC [` and a parameter digit were seen; a final `~` closes the
    /// numbered sequence.
    CsiParam(u8),
}

/// The event that a single byte produces outside any escape sequence.
pub open spec fn idle_event(b: u8) -> KeyEvent {
    if b == 0x04 {
        KeyEvent::EndOfTransmission
    } else if b == 0x0a {
        KeyEvent::Enter
    } else if b == 0x7f {
        KeyEvent::DeleteBackward
    } else if 0x20 <= b {
        KeyEvent::Character(b)
    } else {
        KeyEvent::Unrecognized
    }
}

/// One transition of the decoder: from a state and an input byte to the next
/// state and the event resolved by this byte, if any. `None` means the byte
/// was consumed as part of an unfinished escape sequence.
pub open spec fn decode_step(s: DecoderState, b: u8) -> (DecoderState, Option<KeyEvent>) {
    match s {
        DecoderState::Idle => {
            if b == 0x1b {
                (DecoderState::EscapeSeen, None)
            } else {
                (DecoderState::Idle, Some(idle_event(b)))
            }
        },
        DecoderState::EscapeSeen => {
            if b == 0x5b {
                (DecoderState::CsiStarted, None)
            } else {
                (DecoderState::Idle, Some(KeyEvent::Unrecognized))
            }
        },
        DecoderState::CsiStarted => {
            if 0x30 <= b <= 0x39 {
                (DecoderState::CsiParam(b), None)
            } else if b == 0x43 {
                (DecoderState::Idle, Some(KeyEvent::MoveRight))
            } else if b == 0x44 {
                (DecoderState::Idle, Some(KeyEvent::MoveLeft))
            } else if b == 0x48 {
                (DecoderState::Idle, Some(KeyEvent::MoveHome))
            } else if b == 0x46 {
                (DecoderState::Idle, Some(KeyEvent::MoveEnd))
            } else {
                // Up and Down arrows (`A`, `B`) are decoded but have no bound
                // action here, like every other unsupported final byte.
                (DecoderState::Idle, Some(KeyEvent::Unrecognized))
            }
        },
        DecoderState::CsiParam(d) => {
            if b == 0x7e && (d == 0x31 || d == 0x37) {
                (DecoderState::Idle, Some(KeyEvent::MoveHome))
            } else {
                (DecoderState::Idle, Some(KeyEvent::Unrecognized))
            }
        },
    }
}

/// The key decoder. Feed it bytes as they arrive; each step either resolves
/// a `KeyEvent` or asks for the next byte of an escape sequence.
#[derive(Debug)]
pub struct Decoder {
    pub state: DecoderState,
}

impl Decoder {
    pub fn new() -> (r: Self)
        ensures
            r.state == DecoderState::Idle,
    {
        Decoder { state: DecoderState::Idle }
    }

    /// Consumes one input byte and performs one transition of `decode_step`.
    pub fn step(&mut self, b: u8) -> (r: Option<KeyEvent>)
        ensures
            final(self).state == decode_step(old(self).state, b).0,
            r == decode_step(old(self).state, b).1,
    {
        match self.state {
            DecoderState::Idle => {
                if b == 0x1b {
                    self.state = DecoderState::EscapeSeen;
                    None
                } else if b == 0x04 {
                    Some(KeyEvent::EndOfTransmission)
                } else if b == 0x0a {
                    Some(KeyEvent::Enter)
                } else if b == 0x7f {
                    Some(KeyEvent::DeleteBackward)
                } else if 0x20 <= b {
                    Some(KeyEvent::Character(b))
                } else {
                    Some(KeyEvent::Unrecognized)
                }
            },
            DecoderState::EscapeSeen => {
                if b == 0x5b {
                    self.state = DecoderState::CsiStarted;
                    None
                } else {
                    self.state = DecoderState::Idle;
                    Some(KeyEvent::Unrecognized)
                }
            },
            DecoderState::CsiStarted => {
                if 0x30 <= b && b <= 0x39 {
                    self.state = DecoderState::CsiParam(b);
                    None
                } else {
                    self.state = DecoderState::Idle;
                    if b == 0x43 {
                        Some(KeyEvent::MoveRight)
                    } else if b == 0x44 {
                        Some(KeyEvent::MoveLeft)
                    } else if b == 0x48 {
                        Some(KeyEvent::MoveHome)
                    } else if b == 0x46 {
                        Some(KeyEvent::MoveEnd)
                    } else {
                        Some(KeyEvent::Unrecognized)
                    }
                }
            },
            DecoderState::CsiParam(d) => {
                self.state = DecoderState::Idle;
                if b == 0x7e && (d == 0x31 || d == 0x37) {
                    Some(KeyEvent::MoveHome)
                } else {
                    Some(KeyEvent::Unrecognized)
                }
            },
        }
    }
}

} // verus!
