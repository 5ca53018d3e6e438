//! A gap buffer: byte storage with one unused "gap" region that slides to the
//! edit point, giving O(1) amortized insertion and deletion at the cursor.
//!
//! The logical text is everything outside the gap:
//! `data[0..gap_start] ++ data[gap_end..data.len()]`.

use vstd::prelude::*;

verus! {

use vstd::utf8::{valid_utf8, decode_utf8};

/// The error that `get_text` reports when the stored bytes are not valid
/// UTF-8. Declared so that contracts can speak of results that carry it;
/// the value itself is opaque.
#[verifier::external_type_specification]
#[verifier::external_body]
pub struct ExFromUtf8Error(std::string::FromUtf8Error);

/// Relies on String::from_utf8: it returns the decoded string exactly when
/// the bytes are valid UTF-8, and an error otherwise.
#[verifier::external_body]
fn string_from_utf8(bytes: Vec<u8>) -> (r: Result<String, std::string::FromUtf8Error>)
    ensures
        r is Ok <==> valid_utf8(bytes@),
        r matches Ok(s) ==> s@ == decode_utf8(bytes@),
{
    String::from_utf8(bytes)
}

/// Capacity of a freshly created buffer.
pub const BUF_INIT_SIZE: usize = 32;

#[derive(Debug, Clone)]
pub struct GapBuffer {
    pub data: Vec<u8>,
    pub gap_start: usize,
    pub gap_end: usize,
}

impl GapBuffer {
    /// The gap is never negative-sized and lies inside the storage.
    pub open spec fn wf(&self) -> bool {
        self.gap_start <= self.gap_end <= self.data@.len()
    }

    /// The logical text: the bytes before and after the gap.
    pub open spec fn text(&self) -> Seq<u8> {
        self.data@.subrange(0, self.gap_start as int)
            + self.data@.subrange(self.gap_end as int, self.data@.len() as int)
    }

    /// The number of unused bytes in the gap.
    pub open spec fn spec_gap_len(&self) -> int {
        self.gap_end - self.gap_start
    }

    pub fn new() -> (r: Self)
        ensures
            r.wf(),
            r.text() == Seq::<u8>::empty(),
            r.gap_start == 0,
            r.gap_end == BUF_INIT_SIZE,
            r.data@.len() == BUF_INIT_SIZE,
    {
        let r = Self { data: vec![0u8; BUF_INIT_SIZE], gap_start: 0, gap_end: BUF_INIT_SIZE };
        proof {
            assert(r.text() =~= Seq::<u8>::empty());
        }
        r
    }

    pub fn gap_len(&self) -> (r: usize)
        requires
            self.wf(),
        ensures
            r == self.spec_gap_len(),
    {
        self.gap_end - self.gap_start
    }

    pub fn buffer_len(&self) -> (r: usize)
        ensures
            r == self.data@.len(),
    {
        self.data.len()
    }

    pub fn text_len(&self) -> (r: usize)
        requires
            self.wf(),
        ensures
            r == self.text().len(),
    {
        self.data.len() - (self.gap_end - self.gap_start)
    }

    /// The logical text as owned bytes, in order.
    pub fn text_bytes(&self) -> (r: Vec<u8>)
        requires
            self.wf(),
        ensures
            r@ == self.text(),
    {
        let mut r: Vec<u8> = Vec::new();
        r.extend_from_slice(&self.data[0..self.gap_start]);
        r.extend_from_slice(&self.data[self.gap_end..self.data.len()]);
        proof {
            assert(r@ =~= self.text());
        }
        r
    }

    /// The logical text as a string, or an encoding error if the stored
    /// bytes are not valid UTF-8.
    pub fn get_text(&self) -> (r: Result<String, std::string::FromUtf8Error>)
        requires
            self.wf(),
        ensures
            r is Ok <==> valid_utf8(self.text()),
            r matches Ok(s) ==> s@ == decode_utf8(self.text()),
    {
        string_from_utf8(self.text_bytes())
    }

    /// Logically empties the buffer: the gap becomes the whole storage.
    pub fn clear_buffer_text(&mut self)
        requires
            old(self).wf(),
        ensures
            final(self).wf(),
            final(self).gap_start == 0,
            final(self).gap_end == final(self).data@.len(),
            final(self).data@.len() == old(self).data@.len(),
            final(self).text() == Seq::<u8>::empty(),
    {
        self.gap_start = 0;
        self.gap_end = self.data.len();
        proof {
            assert(self.text() =~= Seq::<u8>::empty());
        }
    }

    /// The gap size to allocate when `slice_len` more bytes must fit.
    fn compute_new_gap_size(&self, slice_len: usize) -> (r: usize)
        requires
            self.wf(),
            self.data@.len() + slice_len <= usize::MAX / 4,
        ensures
            r == spec_new_gap_size(self.data@.len() as nat, (self.spec_gap_len() + slice_len) as nat),
            r <= 2 * self.data@.len() + 2 * slice_len + 1,
    {
        let needed = (self.gap_end - self.gap_start) + slice_len;
        let next_pow_of_two = next_gap_power(needed);
        let five_percent = self.data.len() / 20;
        if five_percent >= next_pow_of_two {
            five_percent
        } else {
            next_pow_of_two
        }
    }

    /// Reallocates the storage so that the gap can hold `slice`, inserting
    /// `slice` at the gap position as it copies.
    fn grow_gap(&mut self, slice: &[u8])
        requires
            old(self).wf(),
            old(self).data@.len() + slice@.len() <= usize::MAX / 4,
        ensures
            final(self).wf(),
            final(self).gap_start == old(self).gap_start + slice@.len(),
            final(self).spec_gap_len() == spec_new_gap_size(
                old(self).data@.len() as nat,
                (old(self).spec_gap_len() + slice@.len()) as nat,
            ),
            final(self).data@.len() == old(self).text().len() + slice@.len()
                + final(self).spec_gap_len(),
            final(self).data@.len() <= 3 * (old(self).data@.len() + slice@.len()) + 1,
            final(self).text() == old(self).text().subrange(0, old(self).gap_start as int)
                + slice@
                + old(self).text().subrange(
                    old(self).gap_start as int,
                    old(self).text().len() as int,
                ),
    {
        let new_gap_size = self.compute_new_gap_size(slice.len());
        let mut buffer: Vec<u8> = Vec::new();
        buffer.extend_from_slice(&self.data[0..self.gap_start]);
        buffer.extend_from_slice(slice);
        let zeros = vec![0u8; new_gap_size];
        buffer.extend_from_slice(zeros.as_slice());
        buffer.extend_from_slice(&self.data[self.gap_end..self.data.len()]);
        proof {
            assert(buffer@ =~= self.data@.subrange(0, self.gap_start as int) + slice@
                + zeros@ + self.data@.subrange(self.gap_end as int, self.data@.len() as int));
        }
        self.gap_start = self.gap_start + slice.len();
        self.gap_end = self.gap_start + new_gap_size;
        self.data = buffer;
        proof {
            assert(final(self).text() =~= old(self).text().subrange(0, old(self).gap_start as int)
                + slice@
                + old(self).text().subrange(
                    old(self).gap_start as int,
                    old(self).text().len() as int,
                ));
        }
    }

    /// Inserts `slice` at the current gap position. If the gap is too small,
    /// the buffer grows first, per the growth policy.
    pub fn insert(&mut self, slice: &[u8])
        requires
            old(self).wf(),
            old(self).data@.len() + slice@.len() <= usize::MAX / 4,
        ensures
            final(self).wf(),
            final(self).gap_start == old(self).gap_start + slice@.len(),
            final(self).text() == old(self).text().subrange(0, old(self).gap_start as int)
                + slice@
                + old(self).text().subrange(
                    old(self).gap_start as int,
                    old(self).text().len() as int,
                ),
            slice@.len() <= old(self).spec_gap_len() ==> {
                &&& final(self).data@.len() == old(self).data@.len()
                &&& final(self).gap_end == old(self).gap_end
            },
            slice@.len() > old(self).spec_gap_len() ==> final(self).spec_gap_len()
                == spec_new_gap_size(
                    old(self).data@.len() as nat,
                    (old(self).spec_gap_len() + slice@.len()) as nat,
                ),
            final(self).data@.len() <= 3 * (old(self).data@.len() + slice@.len()) + 1,
    {
        if slice.len() <= self.gap_end - self.gap_start {
            let ghost orig = *self;
            let mut i: usize = 0;
            while i < slice.len()
                invariant
                    orig.wf(),
                    i <= slice@.len() <= orig.spec_gap_len(),
                    self.gap_start == orig.gap_start,
                    self.gap_end == orig.gap_end,
                    self.data@.len() == orig.data@.len(),
                    forall|j: int|
                        0 <= j < self.data@.len() && !(orig.gap_start <= j < orig.gap_start + i)
                            ==> self.data@[j] == orig.data@[j],
                    forall|j: int| 0 <= j < i ==> self.data@[orig.gap_start + j] == slice@[j],
                decreases slice@.len() - i,
            {
                self.data[self.gap_start + i] = slice[i];
                i += 1;
            }
            self.gap_start = self.gap_start + slice.len();
            proof {
                assert(final(self).text() =~= orig.text().subrange(0, orig.gap_start as int)
                    + slice@
                    + orig.text().subrange(orig.gap_start as int, orig.text().len() as int));
            }
        } else {
            self.grow_gap(slice);
        }
    }

    /// Removes the `nchars` bytes immediately before the gap.
    pub fn delete_backwards(&mut self, nchars: usize)
        requires
            old(self).wf(),
            nchars <= old(self).gap_start,
        ensures
            final(self).wf(),
            final(self).gap_start == old(self).gap_start - nchars,
            final(self).gap_end == old(self).gap_end,
            final(self).data == old(self).data,
            final(self).text() == old(self).text().subrange(
                0,
                old(self).gap_start - nchars,
            ) + old(self).text().subrange(old(self).gap_start as int, old(self).text().len() as int),
    {
        let ghost orig = *self;
        self.gap_start = self.gap_start - nchars;
        proof {
            assert(final(self).text() =~= orig.text().subrange(0, orig.gap_start - nchars)
                + orig.text().subrange(orig.gap_start as int, orig.text().len() as int));
        }
    }

    /// Removes the `nchars` bytes immediately after the gap.
    pub fn delete_forwards(&mut self, nchars: usize)
        requires
            old(self).wf(),
            nchars <= old(self).data@.len() - old(self).gap_end,
        ensures
            final(self).wf(),
            final(self).gap_start == old(self).gap_start,
            final(self).gap_end == old(self).gap_end + nchars,
            final(self).data == old(self).data,
            final(self).text() == old(self).text().subrange(0, old(self).gap_start as int)
                + old(self).text().subrange(
                    old(self).gap_start + nchars,
                    old(self).text().len() as int,
                ),
    {
        let ghost orig = *self;
        let cap = self.data.len();
        proof {
            assert(self.gap_end + nchars <= cap);
        }
        self.gap_end = self.gap_end + nchars;
        proof {
            assert(final(self).text() =~= orig.text().subrange(0, orig.gap_start as int)
                + orig.text().subrange(orig.gap_start + nchars, orig.text().len() as int));
        }
    }

    /// Builds a copy of the storage whose gap has been moved left, to
    /// `[new_gap_start, new_gap_end)`: the text between the new and the old
    /// gap position crosses to the far side of the gap.
    fn move_gap_backwards(&self, new_gap_start: usize, new_gap_end: usize) -> (buffer: Vec<u8>)
        requires
            self.wf(),
            new_gap_start <= self.gap_start,
            new_gap_end == new_gap_start + self.spec_gap_len(),
        ensures
            buffer@.len() == self.data@.len(),
            buffer@.subrange(0, new_gap_start as int)
                == self.data@.subrange(0, new_gap_start as int),
            buffer@.subrange(new_gap_end as int, buffer@.len() as int)
                == self.data@.subrange(new_gap_start as int, self.gap_start as int)
                    + self.data@.subrange(self.gap_end as int, self.data@.len() as int),
    {
        let mut buffer: Vec<u8> = Vec::new();
        buffer.extend_from_slice(&self.data[0..new_gap_start]);
        let gap: usize = self.gap_end - self.gap_start;
        let zeros = vec![0u8; gap];
        buffer.extend_from_slice(zeros.as_slice());
        buffer.extend_from_slice(&self.data[new_gap_start..self.gap_start]);
        buffer.extend_from_slice(&self.data[self.gap_end..self.data.len()]);
        proof {
            assert(buffer@ =~= self.data@.subrange(0, new_gap_start as int) + zeros@
                + self.data@.subrange(new_gap_start as int, self.gap_start as int)
                + self.data@.subrange(self.gap_end as int, self.data@.len() as int));
            assert(buffer@.subrange(0, new_gap_start as int)
                =~= self.data@.subrange(0, new_gap_start as int));
            assert(buffer@.subrange(new_gap_end as int, buffer@.len() as int)
                =~= self.data@.subrange(new_gap_start as int, self.gap_start as int)
                    + self.data@.subrange(self.gap_end as int, self.data@.len() as int));
        }
        buffer
    }

    /// Builds a copy of the storage whose gap has been moved right, to
    /// `[new_gap_start, new_gap_end)`.
    fn move_gap_forwards(&self, new_gap_start: usize, new_gap_end: usize) -> (buffer: Vec<u8>)
        requires
            self.wf(),
            self.gap_start <= new_gap_start,
            new_gap_end == new_gap_start + self.spec_gap_len(),
            new_gap_end <= self.data@.len(),
        ensures
            buffer@.len() == self.data@.len(),
            buffer@.subrange(0, new_gap_start as int)
                == self.data@.subrange(0, self.gap_start as int)
                    + self.data@.subrange(self.gap_end as int, new_gap_end as int),
            buffer@.subrange(new_gap_end as int, buffer@.len() as int)
                == self.data@.subrange(new_gap_end as int, self.data@.len() as int),
    {
        let mut buffer: Vec<u8> = Vec::new();
        buffer.extend_from_slice(&self.data[0..self.gap_start]);
        buffer.extend_from_slice(&self.data[self.gap_end..new_gap_end]);
        let gap: usize = self.gap_end - self.gap_start;
        let zeros = vec![0u8; gap];
        buffer.extend_from_slice(zeros.as_slice());
        buffer.extend_from_slice(&self.data[new_gap_end..self.data.len()]);
        proof {
            assert(buffer@ =~= self.data@.subrange(0, self.gap_start as int)
                + self.data@.subrange(self.gap_end as int, new_gap_end as int) + zeros@
                + self.data@.subrange(new_gap_end as int, self.data@.len() as int));
            assert(buffer@.subrange(0, new_gap_start as int)
                =~= self.data@.subrange(0, self.gap_start as int)
                    + self.data@.subrange(self.gap_end as int, new_gap_end as int));
            assert(buffer@.subrange(new_gap_end as int, buffer@.len() as int)
                =~= self.data@.subrange(new_gap_end as int, self.data@.len() as int));
        }
        buffer
    }

    /// Relocates the gap so that `gap_start == cursor`, where `cursor` is a
    /// position in logical text space. The text is unchanged; only its
    /// placement around the gap moves. This is the one operation whose cost
    /// is proportional to the distance moved, so callers defer it until a
    /// mutating operation needs it.
    pub fn move_gap_to_cursor(&mut self, cursor: usize)
        requires
            old(self).wf(),
            cursor <= old(self).text().len(),
        ensures
            final(self).wf(),
            final(self).gap_start == cursor,
            final(self).spec_gap_len() == old(self).spec_gap_len(),
            final(self).data@.len() == old(self).data@.len(),
            final(self).text() == old(self).text(),
    {
        if self.gap_start == cursor {
            return;
        }
        let ghost orig = *self;
        let cap = self.data.len();
        let new_gap_start = cursor;
        proof {
            assert(cursor + (self.gap_end - self.gap_start) <= cap);
        }
        let new_gap_end = cursor + (self.gap_end - self.gap_start);
        let buffer = if self.gap_start > new_gap_start {
            self.move_gap_backwards(new_gap_start, new_gap_end)
        } else {
            self.move_gap_forwards(new_gap_start, new_gap_end)
        };
        self.gap_start = new_gap_start;
        self.gap_end = new_gap_end;
        self.data = buffer;
        proof {
            assert(final(self).text() =~= orig.text());
        }
    }

    /// Inserts a single byte at the current gap position.
    pub fn insert_char(&mut self, char: u8)
        requires
            old(self).wf(),
            old(self).data@.len() + 1 <= usize::MAX / 4,
        ensures
            final(self).wf(),
            final(self).gap_start == old(self).gap_start + 1,
            final(self).data@.len() <= 3 * (old(self).data@.len() + 1) + 1,
            final(self).text() == old(self).text().subrange(0, old(self).gap_start as int)
                + seq![char]
                + old(self).text().subrange(
                    old(self).gap_start as int,
                    old(self).text().len() as int,
                ),
    {
        if self.gap_end - self.gap_start == 0 {
            let one = vec![char];
            proof {
                assert(one@ =~= seq![char]);
            }
            self.grow_gap(one.as_slice());
        } else {
            let ghost orig = *self;
            self.data[self.gap_start] = char;
            self.gap_start = self.gap_start + 1;
            proof {
                assert(final(self).text() =~= orig.text().subrange(0, orig.gap_start as int)
                    + seq![char]
                    + orig.text().subrange(orig.gap_start as int, orig.text().len() as int));
            }
        }
    }
}

/// The smallest power of two that is at least `n` (and at least 1).
pub open spec fn pow2_ceil(n: nat) -> nat
    decreases n,
{
    if n <= 1 {
        1
    } else {
        2 * pow2_ceil((n + 1) / 2)
    }
}

/// The growth policy for the gap: the larger of 5% of the current capacity
/// and the next power of two of the gap size that is needed.
pub open spec fn spec_new_gap_size(capacity: nat, needed: nat) -> nat {
    if capacity / 20 >= pow2_ceil(needed) {
        capacity / 20
    } else {
        pow2_ceil(needed)
    }
}

/// Computes `pow2_ceil(n)`, with a bound tight enough to rule out overflow.
fn next_gap_power(n: usize) -> (r: usize)
    requires
        n <= usize::MAX / 4,
    ensures
        r == pow2_ceil(n as nat),
        n <= 1 ==> r == 1,
        n >= 2 ==> n <= r <= 2 * n - 2,
    decreases n,
{
    if n <= 1 {
        1
    } else {
        let m = (n + 1) / 2;
        let h = next_gap_power(m);
        proof {
            lemma_pow2_ceil_lower((n + 1) as nat / 2);
            assert(2 * ((n + 1) / 2) >= n);
        }
        2 * h
    }
}

/// `pow2_ceil(n)` is at least `n`.
proof fn lemma_pow2_ceil_lower(n: nat)
    ensures
        pow2_ceil(n) >= n,
        pow2_ceil(n) >= 1,
    decreases n,
{
    if n > 1 {
        lemma_pow2_ceil_lower((n + 1) / 2);
    }
}

/// The well-formedness invariant in full: the gap boundaries are ordered
/// inside the storage, and the text length is the capacity minus the gap
/// length.
pub proof fn lemma_wf_text_len(b: GapBuffer)
    requires
        b.wf(),
    ensures
        0 <= b.gap_start <= b.gap_end <= b.data@.len(),
        b.text().len() == b.data@.len() - (b.gap_end - b.gap_start),
{
}

/// Round trip on the reference model: splicing `bytes` into a text at
/// `pos` — what `insert` does at a gap standing at `pos` — and then
/// cutting them back out from the end of the splice — what
/// `delete_backwards(bytes.len())` does there — restores the text.
pub proof fn lemma_insert_delete_roundtrip(t: Seq<u8>, pos: int, bytes: Seq<u8>)
    requires
        0 <= pos <= t.len(),
    ensures
        ({
            let inserted = t.subrange(0, pos) + bytes + t.subrange(pos, t.len() as int);
            inserted.subrange(0, pos) + inserted.subrange(
                pos + bytes.len(),
                inserted.len() as int,
            ) == t
        }),
{
    let inserted = t.subrange(0, pos) + bytes + t.subrange(pos, t.len() as int);
    assert(inserted.subrange(0, pos) + inserted.subrange(pos + bytes.len(), inserted.len() as int)
        =~= t);
}

} // verus!
