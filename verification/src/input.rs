//! The text input buffer: a cursor-addressed sequence of Unicode scalar
//! values used to compose a chat message.
//!
//! The cursor is counted in characters, not bytes. The buffer knows how to
//! translate the character-index cursor into the byte offset of the UTF-8
//! encoding of its text, and that offset always falls on a character
//! boundary of the encoding (see [`lemma_byte_index_on_char_boundary`]).

use vstd::prelude::*;
use vstd::utf8::*;

verus! {

/// Byte width of the UTF-8 encoding of a single character.
pub open spec fn char_utf8_len(c: char) -> int {
    encode_scalar(c as u32).len() as int
}

/// Byte offset of character index `i` in `s`: the total width of the UTF-8
/// encodings of the first `i` characters.
pub open spec fn byte_offset_of(s: Seq<char>, i: int) -> int
    decreases i,
{
    if i <= 0 {
        0
    } else {
        byte_offset_of(s, i - 1) + char_utf8_len(s[i - 1])
    }
}

/// `v` capped at the largest `usize` value.
pub open spec fn sat_usize(v: int) -> int {
    if v <= usize::MAX as int {
        v
    } else {
        usize::MAX as int
    }
}

/// A cursor moved one character to the left, stopping at the start.
pub open spec fn spec_move_left(cursor: int) -> int {
    if cursor > 0 {
        cursor - 1
    } else {
        0
    }
}

/// A cursor moved one character to the right, stopping at `len`.
pub open spec fn spec_move_right(cursor: int, len: int) -> int {
    if cursor + 1 <= len {
        cursor + 1
    } else {
        len
    }
}

/// Every character encodes to between 1 and 4 bytes.
pub proof fn lemma_char_utf8_len_bounds(c: char)
    ensures
        1 <= char_utf8_len(c) <= 4,
{
}

/// Byte offsets are never negative.
pub proof fn lemma_byte_offset_nonneg(s: Seq<char>, i: int)
    ensures
        byte_offset_of(s, i) >= 0,
    decreases i,
{
    if i > 0 {
        lemma_byte_offset_nonneg(s, i - 1);
        lemma_char_utf8_len_bounds(s[i - 1]);
    }
}

/// Byte offsets grow with the character index.
pub proof fn lemma_byte_offset_monotone(s: Seq<char>, i: int, j: int)
    requires
        0 <= i <= j,
    ensures
        byte_offset_of(s, i) <= byte_offset_of(s, j),
    decreases j - i,
{
    if i < j {
        lemma_byte_offset_monotone(s, i, j - 1);
        lemma_char_utf8_len_bounds(s[j - 1]);
    }
}

/// Encoding a sequence extended by one character appends that character's
/// encoding to the encoding of the sequence.
proof fn lemma_encode_utf8_push(s: Seq<char>, c: char)
    ensures
        encode_utf8(s.push(c)) == encode_utf8(s) + encode_scalar(c as u32),
    decreases s.len(),
{
    reveal_with_fuel(encode_utf8, 2);
    if s.len() == 0 {
        assert(s.push(c)[0] == c);
        assert(s.push(c).drop_first() =~= Seq::<char>::empty());
        assert(encode_utf8(s.push(c)) =~= encode_scalar(c as u32));
        assert(encode_utf8(s) + encode_scalar(c as u32) =~= encode_scalar(c as u32));
    } else {
        assert(s.push(c)[0] == s[0]);
        assert(s.push(c).drop_first() =~= s.drop_first().push(c));
        lemma_encode_utf8_push(s.drop_first(), c);
        assert(encode_utf8(s.push(c)) =~= encode_utf8(s) + encode_scalar(c as u32));
    }
}

/// The byte offset of character index `i` is exactly the length of the
/// UTF-8 encoding of the first `i` characters.
pub proof fn lemma_byte_offset_is_prefix_encoding_len(s: Seq<char>, i: int)
    requires
        0 <= i <= s.len(),
    ensures
        byte_offset_of(s, i) == encode_utf8(s.take(i)).len(),
    decreases i,
{
    if i == 0 {
        assert(s.take(0) =~= Seq::<char>::empty());
    } else {
        lemma_byte_offset_is_prefix_encoding_len(s, i - 1);
        assert(s.take(i) =~= s.take(i - 1).push(s[i - 1]));
        lemma_encode_utf8_push(s.take(i - 1), s[i - 1]);
    }
}

/// Peeling the first character off the front of a byte-offset computation.
proof fn lemma_byte_offset_front(s: Seq<char>, i: int)
    requires
        1 <= i <= s.len(),
    ensures
        byte_offset_of(s, i) == char_utf8_len(s[0]) + byte_offset_of(s.drop_first(), i - 1),
    decreases i,
{
    reveal_with_fuel(byte_offset_of, 2);
    if i > 1 {
        lemma_byte_offset_front(s, i - 1);
        assert(s.drop_first()[i - 2] == s[i - 1]);
    }
}

/// Law: for every character index `0 <= i <= s.len()`, the derived byte
/// offset falls on a character boundary of the UTF-8 encoding of `s`. In
/// particular the offset never splits the encoding of a multi-byte
/// character.
pub proof fn lemma_byte_offset_is_char_boundary(s: Seq<char>, i: int)
    requires
        0 <= i <= s.len(),
    ensures
        is_char_boundary(encode_utf8(s), byte_offset_of(s, i)),
    decreases i,
{
    broadcast use encode_utf8_valid_utf8;

    let bytes = encode_utf8(s);
    if i == 0 {
        assert(is_char_boundary(bytes, 0));
    } else {
        encode_utf8_first_scalar(s);
        assert(pop_first_scalar(bytes) =~= encode_utf8(s.drop_first()));
        lemma_byte_offset_front(s, i);
        lemma_char_utf8_len_bounds(s[0]);
        lemma_byte_offset_nonneg(s.drop_first(), i - 1);
        lemma_byte_offset_is_char_boundary(s.drop_first(), i - 1);
        assert(byte_offset_of(s, i) != 0);
        lemma_byte_offset_monotone(s, i, s.len() as int);
        lemma_byte_offset_is_prefix_encoding_len(s, s.len() as int);
        assert(s.take(s.len() as int) =~= s);
        assert(byte_offset_of(s, i) <= bytes.len());
        assert(byte_offset_of(s, i) - length_of_first_scalar(bytes) == byte_offset_of(
            s.drop_first(),
            i - 1,
        ));
    }
}

/// Exact byte width of one character's UTF-8 encoding.
pub fn char_width(c: char) -> (r: usize)
    ensures
        r as int == char_utf8_len(c),
        1 <= r <= 4,
{
    proof {
        char_is_scalar(c);
    }
    let v: u32 = c as u32;
    if v < 0x80 {
        1
    } else if v < 0x800 {
        2
    } else if v < 0x10000 {
        3
    } else {
        4
    }
}

/// Relies on the standard library's `String::push`: appends the given
/// character to the end of the string.
pub assume_specification[ String::push ](s: &mut String, ch: char)
    ensures
        final(s)@ == old(s)@.push(ch),
;

/// One cursor move: `true` moves right, `false` moves left, both clamped
/// to `[0, len]`.
pub open spec fn apply_moves(cursor: int, len: int, moves: Seq<bool>) -> int
    decreases moves.len(),
{
    if moves.len() == 0 {
        cursor
    } else {
        apply_moves(
            if moves[0] {
                spec_move_right(cursor, len)
            } else {
                spec_move_left(cursor)
            },
            len,
            moves.drop_first(),
        )
    }
}

/// Law: for every sequence of left/right moves, a cursor that starts in
/// `[0, len]` stays in `[0, len]`.
pub proof fn lemma_moves_stay_in_bounds(cursor: int, len: int, moves: Seq<bool>)
    requires
        0 <= cursor <= len,
    ensures
        0 <= apply_moves(cursor, len, moves) <= len,
    decreases moves.len(),
{
    if moves.len() > 0 {
        let next = if moves[0] {
            spec_move_right(cursor, len)
        } else {
            spec_move_left(cursor)
        };
        lemma_moves_stay_in_bounds(next, len, moves.drop_first());
    }
}

/// The buffer contents and cursor after inserting the characters of `s` in
/// order, each at the cursor, the cursor advancing past each one. This is
/// exactly what a run of `add_char` calls does.
pub open spec fn insert_all(text: Seq<char>, cursor: int, s: Seq<char>) -> (Seq<char>, int)
    decreases s.len(),
{
    if s.len() == 0 {
        (text, cursor)
    } else {
        insert_all(text.insert(cursor, s[0]), cursor + 1, s.drop_first())
    }
}

/// Inserting a string with the cursor at the end of the text appends it.
proof fn lemma_insert_all_append(text: Seq<char>, s: Seq<char>)
    ensures
        insert_all(text, text.len() as int, s).0 == text + s,
        insert_all(text, text.len() as int, s).1 == text.len() + s.len(),
    decreases s.len(),
{
    if s.len() == 0 {
        assert(text + s =~= text);
    } else {
        assert(text.insert(text.len() as int, s[0]) =~= text.push(s[0]));
        lemma_insert_all_append(text.push(s[0]), s.drop_first());
        assert(text.push(s[0]) + s.drop_first() =~= text + s);
    }
}

/// Law: after `clear()`, inserting the characters of `s` in order
/// reproduces `s` exactly, with the cursor at its end.
pub proof fn lemma_clear_then_insert_round_trip(s: Seq<char>)
    ensures
        insert_all(Seq::<char>::empty(), 0, s).0 == s,
        insert_all(Seq::<char>::empty(), 0, s).1 == s.len(),
{
    lemma_insert_all_append(Seq::<char>::empty(), s);
    assert(Seq::<char>::empty() + s =~= s);
}

/// The message being composed: its text as a sequence of characters, and a
/// cursor position counted in characters.
#[derive(Debug, Clone)]
pub struct Input {
    chars: Vec<char>,
    cursor_index: usize,
}

impl Input {
    /// The composed text, as a mathematical character sequence.
    pub closed spec fn spec_text(self) -> Seq<char> {
        self.chars@
    }

    /// The cursor position, in characters.
    pub closed spec fn spec_cursor(self) -> int {
        self.cursor_index as int
    }

    /// Well-formedness: the cursor lies within `[0, char_count]`.
    pub closed spec fn wf(self) -> bool {
        self.cursor_index <= self.chars@.len()
    }

    /// An empty buffer with the cursor at the start.
    pub fn new() -> (r: Self)
        ensures
            r.spec_text() == Seq::<char>::empty(),
            r.spec_cursor() == 0,
            r.wf(),
    {
        Self { chars: Vec::new(), cursor_index: 0 }
    }

    /// Number of characters in the buffer.
    pub fn char_count(&self) -> (r: usize)
        ensures
            r == self.spec_text().len(),
    {
        self.chars.len()
    }

    /// Current cursor position, in characters.
    pub fn cursor(&self) -> (r: usize)
        ensures
            r as int == self.spec_cursor(),
    {
        self.cursor_index
    }

    /// The composed text, assembled into a `String`.
    pub fn text(&self) -> (r: String)
        ensures
            r@ == self.spec_text(),
    {
        let mut r = String::new();
        let mut i: usize = 0;
        proof {
            assert(self.chars@.take(0) =~= Seq::<char>::empty());
        }
        while i < self.chars.len()
            invariant
                i <= self.chars@.len(),
                r@ == self.chars@.take(i as int),
            decreases self.chars@.len() - i,
        {
            let c = self.chars[i];
            r.push(c);
            proof {
                assert(self.chars@.take(i + 1) =~= self.chars@.take(i as int).push(
                    self.chars@[i as int],
                ));
            }
            i = i + 1;
        }
        proof {
            assert(self.chars@.take(self.chars@.len() as int) =~= self.chars@);
        }
        r
    }

    /// The byte offset in the UTF-8 encoding of the text that corresponds
    /// to the character-index cursor. A cursor beyond the character count
    /// (which well-formed buffers never produce) falls back to the total
    /// byte length; a total beyond `usize` saturates.
    pub fn byte_index(&self) -> (r: usize)
        ensures
            r as int == sat_usize(
                byte_offset_of(
                    self.spec_text(),
                    spec_move_right(self.spec_cursor() - 1, self.spec_text().len() as int),
                ),
            ),
    {
        let len: usize = self.chars.len();
        let n: usize = if self.cursor_index <= len {
            self.cursor_index
        } else {
            len
        };
        let mut acc: usize = 0;
        let mut i: usize = 0;
        while i < n
            invariant
                i <= n,
                n <= self.chars@.len(),
                n as int == spec_move_right(
                    self.spec_cursor() - 1,
                    self.spec_text().len() as int,
                ),
                acc as int == sat_usize(byte_offset_of(self.chars@, i as int)),
            decreases n - i,
        {
            let w = char_width(self.chars[i]);
            proof {
                lemma_byte_offset_nonneg(self.chars@, i as int);
                lemma_char_utf8_len_bounds(self.chars@[i as int]);
            }
            acc = acc.saturating_add(w);
            i = i + 1;
        }
        acc
    }

    /// Insert a character at the cursor, then advance the cursor past it.
    pub fn add_char(&mut self, input_char: char)
        requires
            old(self).wf(),
        ensures
            final(self).wf(),
            final(self).spec_text() == old(self).spec_text().insert(
                old(self).spec_cursor(),
                input_char,
            ),
            final(self).spec_cursor() == old(self).spec_cursor() + 1,
    {
        self.chars.insert(self.cursor_index, input_char);
        self.move_right();
    }

    /// Move the cursor one character left (`left_right == false`) or right
    /// (`left_right == true`), clamped to `[0, char_count]`.
    pub fn traverse(&mut self, left_right: bool)
        requires
            old(self).wf(),
        ensures
            final(self).wf(),
            final(self).spec_text() == old(self).spec_text(),
            left_right ==> final(self).spec_cursor() == spec_move_right(
                old(self).spec_cursor(),
                old(self).spec_text().len() as int,
            ),
            !left_right ==> final(self).spec_cursor() == spec_move_left(old(self).spec_cursor()),
    {
        proof {
            vstd::std_specs::vec::axiom_spec_len(&self.chars);
        }
        let indx: usize = if left_right {
            self.cursor_index.saturating_add(1)
        } else {
            self.cursor_index.saturating_sub(1)
        };
        self.cursor_index = self.clamp_cursor(indx);
    }

    /// Move the cursor one character left; a no-op at the start.
    pub fn move_left(&mut self)
        requires
            old(self).wf(),
        ensures
            final(self).wf(),
            final(self).spec_text() == old(self).spec_text(),
            final(self).spec_cursor() == spec_move_left(old(self).spec_cursor()),
            0 <= final(self).spec_cursor() <= final(self).spec_text().len(),
    {
        self.traverse(false)
    }

    /// Move the cursor one character right; a no-op at the end.
    pub fn move_right(&mut self)
        requires
            old(self).wf(),
        ensures
            final(self).wf(),
            final(self).spec_text() == old(self).spec_text(),
            final(self).spec_cursor() == spec_move_right(
                old(self).spec_cursor(),
                old(self).spec_text().len() as int,
            ),
            0 <= final(self).spec_cursor() <= final(self).spec_text().len(),
    {
        self.traverse(true)
    }

    /// Clamp a proposed cursor position into `[0, char_count]`.
    pub fn clamp_cursor(&self, new_cursor_pos: usize) -> (r: usize)
        ensures
            r as int == if new_cursor_pos <= self.spec_text().len() {
                new_cursor_pos as int
            } else {
                self.spec_text().len() as int
            },
    {
        let len: usize = self.chars.len();
        if new_cursor_pos <= len {
            new_cursor_pos
        } else {
            len
        }
    }

    /// Put the cursor back at the start of the buffer.
    pub fn reset_cursor(&mut self, new_cursor_pos: usize)
        ensures
            final(self).wf(),
            final(self).spec_text() == old(self).spec_text(),
            final(self).spec_cursor() == 0,
    {
        let _unused: usize = new_cursor_pos;
        self.cursor_index = 0;
    }

    /// Remove the character immediately before the cursor and move the
    /// cursor back one position; a no-op when the cursor is at the start
    /// (in particular on an empty buffer).
    pub fn delete_char(&mut self)
        requires
            old(self).wf(),
        ensures
            final(self).wf(),
            old(self).spec_cursor() == 0 ==> *final(self) == *old(self),
            old(self).spec_cursor() > 0 ==> final(self).spec_text() == old(
                self,
            ).spec_text().remove(old(self).spec_cursor() - 1),
            old(self).spec_cursor() > 0 ==> final(self).spec_cursor() == old(self).spec_cursor()
                - 1,
    {
        if self.cursor_index > 0 {
            self.chars.remove(self.cursor_index - 1);
            self.cursor_index = self.cursor_index - 1;
        }
    }

    /// Reset the buffer to empty with the cursor at the start.
    pub fn clear(&mut self)
        ensures
            final(self).wf(),
            final(self).spec_text() == Seq::<char>::empty(),
            final(self).spec_cursor() == 0,
    {
        self.chars.clear();
        self.cursor_index = 0;
    }

    /// A well-formed buffer keeps its cursor within `[0, char_count]`.
    pub proof fn lemma_wf_cursor_in_bounds(self)
        requires
            self.wf(),
        ensures
            0 <= self.spec_cursor() <= self.spec_text().len(),
    {
    }

    /// Law: the character-index cursor of a well-formed buffer maps to a
    /// valid byte boundary of the UTF-8 encoding of its text.
    pub proof fn lemma_byte_index_on_char_boundary(self)
        requires
            self.wf(),
        ensures
            is_char_boundary(
                encode_utf8(self.spec_text()),
                byte_offset_of(self.spec_text(), self.spec_cursor()),
            ),
    {
        lemma_byte_offset_is_char_boundary(self.spec_text(), self.spec_cursor());
    }
}

} // verus!
