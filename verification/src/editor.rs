//! The line editor: a gap buffer plus a logical cursor, applying key events
//! and emitting the exact terminal escape bytes that repaint the edited line.
//!
//! The cursor lives in logical text space (`0..=text_len`), not at the gap:
//! the gap is relocated to the cursor only immediately before an insert or a
//! delete, so that pure navigation stays O(1).

use vstd::prelude::*;
use crate::gap_buffer::GapBuffer;
use crate::decoder::KeyEvent;

verus! {

use vstd::utf8::{valid_utf8, decode_utf8};

/// `ESC [ ? 2 5 l`: hide the cursor.
pub open spec fn hide_cursor_bytes() -> Seq<u8> {
    seq![0x1bu8, 0x5bu8, 0x3fu8, 0x32u8, 0x35u8, 0x6cu8]
}

/// `ESC [ ? 2 5 h`: show the cursor.
pub open spec fn show_cursor_bytes() -> Seq<u8> {
    seq![0x1bu8, 0x5bu8, 0x3fu8, 0x32u8, 0x35u8, 0x68u8]
}

/// `ESC [ 2 K CR`: clear the whole line and return to column one.
pub open spec fn clear_line_bytes() -> Seq<u8> {
    seq![0x1bu8, 0x5bu8, 0x32u8, 0x4bu8, 0x0du8]
}

/// The prompt: a shushing-face emoji (four UTF-8 bytes), `>`, space.
pub open spec fn prompt_bytes() -> Seq<u8> {
    seq![0xf0u8, 0x9fu8, 0xa4u8, 0xabu8, 0x3eu8, 0x20u8]
}

/// `ESC [ D`: move the cursor one cell left.
pub open spec fn cursor_left_bytes() -> Seq<u8> {
    seq![0x1bu8, 0x5bu8, 0x44u8]
}

/// `ESC [ C`: move the cursor one cell right.
pub open spec fn cursor_right_bytes() -> Seq<u8> {
    seq![0x1bu8, 0x5bu8, 0x43u8]
}

/// The decimal digits of `n`, as ASCII bytes, most significant first.
pub open spec fn dec_digits(n: nat) -> Seq<u8>
    decreases n,
{
    if n < 10 {
        seq![(0x30 + n) as u8]
    } else {
        dec_digits(n / 10) + seq![(0x30 + n % 10) as u8]
    }
}

/// `ESC [ {col} G`: move the cursor to the absolute column `col`.
pub open spec fn move_col_bytes(col: nat) -> Seq<u8> {
    seq![0x1bu8, 0x5bu8] + dec_digits(col) + seq![0x47u8]
}

/// The full repaint that follows every mutation: hide the cursor, clear the
/// line, redraw prompt and text, reposition the cursor to its logical
/// column (the prompt occupies the first four cells, so the column is
/// `cursor + 5`), and show the cursor again.
pub open spec fn redraw_bytes(text: Seq<u8>, cursor: nat) -> Seq<u8> {
    hide_cursor_bytes() + clear_line_bytes() + prompt_bytes() + text + move_col_bytes(cursor + 5)
        + show_cursor_bytes()
}

/// A newline followed by a fresh prompt and the cursor at the prompt edge.
pub open spec fn newline_prompt_bytes() -> Seq<u8> {
    seq![0x0au8] + prompt_bytes() + move_col_bytes(5)
}

/// Appends the decimal digits of `n` to `out`.
fn push_decimal(out: &mut Vec<u8>, n: usize)
    ensures
        final(out)@ == old(out)@ + dec_digits(n as nat),
    decreases n,
{
    if n < 10 {
        out.push(0x30 + (n as u8));
        proof {
            assert(final(out)@ =~= old(out)@ + dec_digits(n as nat));
        }
    } else {
        push_decimal(out, n / 10);
        out.push(0x30 + ((n % 10) as u8));
        proof {
            assert(final(out)@ =~= old(out)@ + dec_digits(n as nat));
        }
    }
}

/// What applying one key event to the editor produced.
#[derive(Debug)]
pub struct EventOutcome {
    /// Terminal bytes to write, in order. Empty when nothing changed.
    pub output: Vec<u8>,
    /// On Enter, the finished logical text, handed outward by value.
    pub finished: Option<Vec<u8>>,
    /// Whether the event asks the session to end.
    pub terminate: bool,
}

#[derive(Debug)]
pub struct Editor {
    pub buffer: GapBuffer,
    pub cursor: usize,
}

impl Editor {
    /// The cursor stays inside the logical text, and the storage leaves
    /// room for the cursor-column arithmetic.
    pub open spec fn wf(&self) -> bool {
        &&& self.buffer.wf()
        &&& self.cursor <= self.buffer.text().len()
        &&& self.buffer.data@.len() <= usize::MAX - 5
    }

    pub fn new() -> (r: Self)
        ensures
            r.wf(),
            r.cursor == 0,
            r.buffer.text() == Seq::<u8>::empty(),
            r.buffer.data@.len() == crate::gap_buffer::BUF_INIT_SIZE,
    {
        Self { buffer: GapBuffer::new(), cursor: 0 }
    }

    /// Moves the cursor one position left, if it is not already at the
    /// start, and returns the terminal instruction for a single-cell move.
    /// No buffer mutation and no repaint: pure navigation is O(1).
    pub fn move_cursor_left(&mut self) -> (r: Option<&'static str>)
        requires
            old(self).wf(),
        ensures
            final(self).wf(),
            final(self).buffer == old(self).buffer,
            old(self).cursor > 0 ==> {
                &&& final(self).cursor == old(self).cursor - 1
                &&& r matches Some(s) && s@ == "\x1B[D"@
            },
            old(self).cursor == 0 ==> final(self).cursor == 0 && r is None,
    {
        if self.cursor > 0 {
            self.cursor = self.cursor - 1;
            Some("\x1B[D")
        } else {
            None
        }
    }

    /// Moves the cursor one position right, if it is not already at the end
    /// of the text, and returns the single-cell move instruction.
    pub fn move_cursor_right(&mut self) -> (r: Option<&'static str>)
        requires
            old(self).wf(),
        ensures
            final(self).wf(),
            final(self).buffer == old(self).buffer,
            old(self).cursor < old(self).buffer.text().len() ==> {
                &&& final(self).cursor == old(self).cursor + 1
                &&& r matches Some(s) && s@ == "\x1B[C"@
            },
            old(self).cursor == old(self).buffer.text().len() ==> {
                &&& final(self).cursor == old(self).cursor
                &&& r is None
            },
    {
        if self.cursor < self.buffer.text_len() {
            self.cursor = self.cursor + 1;
            Some("\x1B[C")
        } else {
            None
        }
    }

    /// Moves the cursor to the start of the text and returns the absolute
    /// reposition instruction for the column just after the prompt.
    pub fn move_cursor_to_start(&mut self) -> (r: &'static str)
        requires
            old(self).wf(),
        ensures
            final(self).wf(),
            final(self).buffer == old(self).buffer,
            final(self).cursor == 0,
            r@ == "\x1B[5G"@,
    {
        self.cursor = 0;
        "\x1B[5G"
    }

    /// Logically empties the buffer and resets the cursor.
    pub fn clean_buffer(&mut self)
        requires
            old(self).wf(),
        ensures
            final(self).wf(),
            final(self).buffer.text() == Seq::<u8>::empty(),
            final(self).buffer.data@.len() == old(self).buffer.data@.len(),
            final(self).cursor == 0,
    {
        self.buffer.clear_buffer_text();
        self.cursor = 0;
    }

    /// The buffer text as a string, or an encoding error if the stored
    /// bytes are not valid UTF-8.
    pub fn get_buffer_text(&self) -> (r: Result<String, std::string::FromUtf8Error>)
        requires
            self.wf(),
        ensures
            r is Ok <==> valid_utf8(self.buffer.text()),
            r matches Ok(s) ==> s@ == decode_utf8(self.buffer.text()),
    {
        self.buffer.get_text()
    }

    /// Appends the hide-cursor and clear-line instructions.
    fn push_clear_line(&self, out: &mut Vec<u8>)
        ensures
            final(out)@ == old(out)@ + hide_cursor_bytes() + clear_line_bytes(),
    {
        out.push(0x1b);
        out.push(0x5b);
        out.push(0x3f);
        out.push(0x32);
        out.push(0x35);
        out.push(0x6c);
        out.push(0x1b);
        out.push(0x5b);
        out.push(0x32);
        out.push(0x4b);
        out.push(0x0d);
        proof {
            assert(final(out)@ =~= old(out)@ + hide_cursor_bytes() + clear_line_bytes());
        }
    }

    /// Appends the prompt, the text, the cursor reposition to its logical
    /// column, and the show-cursor instruction.
    fn push_write_line(&self, out: &mut Vec<u8>)
        requires
            self.wf(),
        ensures
            final(out)@ == old(out)@ + prompt_bytes() + self.buffer.text()
                + move_col_bytes((self.cursor + 5) as nat) + show_cursor_bytes(),
    {
        out.push(0xf0);
        out.push(0x9f);
        out.push(0xa4);
        out.push(0xab);
        out.push(0x3e);
        out.push(0x20);
        let mut text = self.buffer.text_bytes();
        out.append(&mut text);
        out.push(0x1b);
        out.push(0x5b);
        push_decimal(out, self.cursor + 5);
        out.push(0x47);
        out.push(0x1b);
        out.push(0x5b);
        out.push(0x3f);
        out.push(0x32);
        out.push(0x35);
        out.push(0x68);
        proof {
            assert(final(out)@ =~= old(out)@ + prompt_bytes() + self.buffer.text()
                + move_col_bytes((self.cursor + 5) as nat) + show_cursor_bytes());
        }
    }

    /// Deletes the byte just before the cursor, if any, and returns the
    /// repaint bytes. At the start of the text nothing changes and nothing
    /// is emitted.
    pub fn delete_backwards(&mut self) -> (out: Vec<u8>)
        requires
            old(self).wf(),
        ensures
            final(self).wf(),
            final(self).buffer.data@.len() == old(self).buffer.data@.len(),
            old(self).cursor == 0 ==> {
                &&& final(self).buffer == old(self).buffer
                &&& final(self).cursor == 0
                &&& out@ == Seq::<u8>::empty()
            },
            old(self).cursor > 0 ==> {
                &&& final(self).buffer.text() == old(self).buffer.text().subrange(
                    0,
                    old(self).cursor - 1,
                ) + old(self).buffer.text().subrange(
                    old(self).cursor as int,
                    old(self).buffer.text().len() as int,
                )
                &&& final(self).cursor == old(self).cursor - 1
                &&& out@ == redraw_bytes(final(self).buffer.text(), final(self).cursor as nat)
            },
    {
        if self.cursor == 0 {
            return Vec::new();
        }
        self.buffer.move_gap_to_cursor(self.cursor);
        self.buffer.delete_backwards(1);
        self.cursor = self.cursor - 1;
        let mut out: Vec<u8> = Vec::new();
        self.push_clear_line(&mut out);
        self.push_write_line(&mut out);
        out
    }

    /// Inserts `slice` at the cursor, advances the cursor past it, and
    /// returns the repaint bytes.
    pub fn write_to_buffer(&mut self, slice: &[u8]) -> (out: Vec<u8>)
        requires
            old(self).wf(),
            old(self).buffer.data@.len() + slice@.len() <= usize::MAX / 4,
        ensures
            final(self).wf(),
            final(self).buffer.text() == old(self).buffer.text().subrange(
                0,
                old(self).cursor as int,
            ) + slice@ + old(self).buffer.text().subrange(
                old(self).cursor as int,
                old(self).buffer.text().len() as int,
            ),
            final(self).cursor == old(self).cursor + slice@.len(),
            out@ == redraw_bytes(final(self).buffer.text(), final(self).cursor as nat),
    {
        self.buffer.move_gap_to_cursor(self.cursor);
        self.buffer.insert(slice);
        self.cursor = self.cursor + slice.len();
        let mut out: Vec<u8> = Vec::new();
        self.push_clear_line(&mut out);
        self.push_write_line(&mut out);
        out
    }

    /// Emits a newline and a fresh prompt, with the cursor reset to the
    /// prompt edge. The buffer is untouched.
    pub fn new_line(&mut self) -> (out: Vec<u8>)
        requires
            old(self).wf(),
        ensures
            final(self).wf(),
            final(self).buffer == old(self).buffer,
            final(self).cursor == 0,
            out@ == newline_prompt_bytes(),
    {
        self.cursor = 0;
        let mut out: Vec<u8> = Vec::new();
        out.push(0x0a);
        out.push(0xf0);
        out.push(0x9f);
        out.push(0xa4);
        out.push(0xab);
        out.push(0x3e);
        out.push(0x20);
        out.push(0x1b);
        out.push(0x5b);
        out.push(0x35);
        out.push(0x47);
        proof {
            assert(dec_digits(5) =~= seq![0x35u8]);
            assert(out@ =~= newline_prompt_bytes());
        }
        out
    }

    /// Applies one key event: mutates the buffer and the cursor as the
    /// event demands and returns the terminal bytes to emit, the finished
    /// line on Enter, and the termination intent on an interrupt or an
    /// end of transmission. An unrecognized event is a silent no-op.
    pub fn apply_event(&mut self, ev: KeyEvent) -> (r: EventOutcome)
        requires
            old(self).wf(),
            ev is Character ==> old(self).buffer.data@.len() + 1 <= usize::MAX / 4,
        ensures
            final(self).wf(),
            r.terminate == (ev is Interrupt || ev is EndOfTransmission),
            r.finished is Some <==> ev is Enter,
            match ev {
                KeyEvent::Character(b) => {
                    &&& final(self).buffer.text() == old(self).buffer.text().subrange(
                        0,
                        old(self).cursor as int,
                    ) + seq![b] + old(self).buffer.text().subrange(
                        old(self).cursor as int,
                        old(self).buffer.text().len() as int,
                    )
                    &&& final(self).cursor == old(self).cursor + 1
                    &&& r.output@ == redraw_bytes(
                        final(self).buffer.text(),
                        final(self).cursor as nat,
                    )
                },
                KeyEvent::MoveLeft => {
                    &&& final(self).buffer == old(self).buffer
                    &&& if old(self).cursor > 0 {
                        final(self).cursor == old(self).cursor - 1 && r.output@
                            == cursor_left_bytes()
                    } else {
                        final(self).cursor == 0 && r.output@ == Seq::<u8>::empty()
                    }
                },
                KeyEvent::MoveRight => {
                    &&& final(self).buffer == old(self).buffer
                    &&& if old(self).cursor < old(self).buffer.text().len() {
                        final(self).cursor == old(self).cursor + 1 && r.output@
                            == cursor_right_bytes()
                    } else {
                        final(self).cursor == old(self).cursor && r.output@
                            == Seq::<u8>::empty()
                    }
                },
                KeyEvent::MoveHome => {
                    &&& final(self).buffer == old(self).buffer
                    &&& final(self).cursor == 0
                    &&& r.output@ == move_col_bytes(5)
                },
                KeyEvent::MoveEnd => {
                    &&& final(self).buffer == old(self).buffer
                    &&& final(self).cursor == old(self).buffer.text().len()
                    &&& r.output@ == move_col_bytes((old(self).buffer.text().len() + 5) as nat)
                },
                KeyEvent::DeleteBackward => {
                    &&& if old(self).cursor > 0 {
                        &&& final(self).buffer.text() == old(self).buffer.text().subrange(
                            0,
                            old(self).cursor - 1,
                        ) + old(self).buffer.text().subrange(
                            old(self).cursor as int,
                            old(self).buffer.text().len() as int,
                        )
                        &&& final(self).cursor == old(self).cursor - 1
                        &&& r.output@ == redraw_bytes(
                            final(self).buffer.text(),
                            final(self).cursor as nat,
                        )
                    } else {
                        &&& final(self).buffer == old(self).buffer
                        &&& final(self).cursor == 0
                        &&& r.output@ == Seq::<u8>::empty()
                    }
                },
                KeyEvent::DeleteForward => {
                    &&& final(self).cursor == old(self).cursor
                    &&& if old(self).cursor < old(self).buffer.text().len() {
                        &&& final(self).buffer.text() == old(self).buffer.text().subrange(
                            0,
                            old(self).cursor as int,
                        ) + old(self).buffer.text().subrange(
                            old(self).cursor + 1,
                            old(self).buffer.text().len() as int,
                        )
                        &&& r.output@ == redraw_bytes(
                            final(self).buffer.text(),
                            final(self).cursor as nat,
                        )
                    } else {
                        final(self).buffer == old(self).buffer && r.output@
                            == Seq::<u8>::empty()
                    }
                },
                KeyEvent::Enter => {
                    &&& r.finished matches Some(t) && t@ == old(self).buffer.text()
                    &&& final(self).buffer.text() == Seq::<u8>::empty()
                    &&& final(self).cursor == 0
                    &&& r.output@ == seq![0x0au8]
                },
                KeyEvent::Interrupt | KeyEvent::EndOfTransmission => {
                    &&& final(self).buffer == old(self).buffer
                    &&& final(self).cursor == old(self).cursor
                    &&& r.output@ == Seq::<u8>::empty()
                },
                KeyEvent::Unrecognized => {
                    &&& final(self).buffer == old(self).buffer
                    &&& final(self).cursor == old(self).cursor
                    &&& r.output@ == Seq::<u8>::empty()
                },
            },
    {
        match ev {
            KeyEvent::Character(b) => {
                let one = vec![b];
                proof {
                    assert(one@ =~= seq![b]);
                }
                let out = self.write_to_buffer(one.as_slice());
                EventOutcome { output: out, finished: None, terminate: false }
            },
            KeyEvent::MoveLeft => {
                let mut out: Vec<u8> = Vec::new();
                if self.cursor > 0 {
                    self.cursor = self.cursor - 1;
                    out.push(0x1b);
                    out.push(0x5b);
                    out.push(0x44);
                    proof {
                        assert(out@ =~= cursor_left_bytes());
                    }
                }
                EventOutcome { output: out, finished: None, terminate: false }
            },
            KeyEvent::MoveRight => {
                let mut out: Vec<u8> = Vec::new();
                if self.cursor < self.buffer.text_len() {
                    self.cursor = self.cursor + 1;
                    out.push(0x1b);
                    out.push(0x5b);
                    out.push(0x43);
                    proof {
                        assert(out@ =~= cursor_right_bytes());
                    }
                }
                EventOutcome { output: out, finished: None, terminate: false }
            },
            KeyEvent::MoveHome => {
                self.cursor = 0;
                let mut out: Vec<u8> = Vec::new();
                out.push(0x1b);
                out.push(0x5b);
                out.push(0x35);
                out.push(0x47);
                proof {
                    assert(dec_digits(5) =~= seq![0x35u8]);
                    assert(out@ =~= move_col_bytes(5));
                }
                EventOutcome { output: out, finished: None, terminate: false }
            },
            KeyEvent::MoveEnd => {
                self.cursor = self.buffer.text_len();
                let mut out: Vec<u8> = Vec::new();
                out.push(0x1b);
                out.push(0x5b);
                push_decimal(&mut out, self.cursor + 5);
                out.push(0x47);
                proof {
                    assert(out@ =~= move_col_bytes((old(self).buffer.text().len() + 5) as nat));
                }
                EventOutcome { output: out, finished: None, terminate: false }
            },
            KeyEvent::DeleteBackward => {
                let out = self.delete_backwards();
                EventOutcome { output: out, finished: None, terminate: false }
            },
            KeyEvent::DeleteForward => {
                let mut out: Vec<u8> = Vec::new();
                if self.cursor < self.buffer.text_len() {
                    self.buffer.move_gap_to_cursor(self.cursor);
                    self.buffer.delete_forwards(1);
                    self.push_clear_line(&mut out);
                    self.push_write_line(&mut out);
                }
                EventOutcome { output: out, finished: None, terminate: false }
            },
            KeyEvent::Enter => {
                let text = self.buffer.text_bytes();
                self.buffer.clear_buffer_text();
                self.cursor = 0;
                let mut out: Vec<u8> = Vec::new();
                out.push(0x0a);
                proof {
                    assert(out@ =~= seq![0x0au8]);
                }
                EventOutcome { output: out, finished: Some(text), terminate: false }
            },
            KeyEvent::Interrupt | KeyEvent::EndOfTransmission => {
                EventOutcome { output: Vec::new(), finished: None, terminate: true }
            },
            KeyEvent::Unrecognized => {
                EventOutcome { output: Vec::new(), finished: None, terminate: false }
            },
        }
    }
}

} // verus!
