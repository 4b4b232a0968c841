//! Character-level model of a source text: byte widths of its characters,
//! byte offsets of character boundaries, and the line/column position of a
//! character index. Lines are 1-based and columns 0-based, counted in
//! character units; a byte offset inside a multi-byte character resolves to
//! the character containing it.

use vstd::prelude::*;

verus! {

use crate::location::SourcePosition;
use vstd::string::StrSliceExecFns;

/// Number of bytes the UTF-8 encoding of `c` occupies.
pub open spec fn char_width(c: char) -> nat {
    if (c as u32) < 0x80 {
        1
    } else if (c as u32) < 0x800 {
        2
    } else if (c as u32) < 0x10000 {
        3
    } else {
        4
    }
}

pub fn char_width_exec(c: char) -> (w: usize)
    ensures
        w == char_width(c),
        1 <= w <= 4,
{
    let u = c as u32;
    if u < 0x80 {
        1
    } else if u < 0x800 {
        2
    } else if u < 0x10000 {
        3
    } else {
        4
    }
}

/// Byte offset of character boundary `i`: the total byte width of the first
/// `i` characters.
pub open spec fn byte_len_to(s: Seq<char>, i: int) -> nat
    decreases i,
{
    if i <= 0 {
        0
    } else {
        byte_len_to(s, i - 1) + char_width(s[i - 1])
    }
}

/// Byte length of the whole text.
pub open spec fn byte_len(s: Seq<char>) -> nat {
    byte_len_to(s, s.len() as int)
}

/// Number of newline characters among the first `i` characters.
pub open spec fn newlines_to(s: Seq<char>, i: int) -> nat
    decreases i,
{
    if i <= 0 {
        0
    } else {
        newlines_to(s, i - 1) + if s[i - 1] == '\n' {
            1nat
        } else {
            0nat
        }
    }
}

/// Character index at which the line containing character index `i` starts:
/// the index just after the last newline before `i`.
pub open spec fn line_start_to(s: Seq<char>, i: int) -> int
    decreases i,
{
    if i <= 0 {
        0
    } else if s[i - 1] == '\n' {
        i
    } else {
        line_start_to(s, i - 1)
    }
}

/// Line/column position of character index `i`.
pub open spec fn position_at(s: Seq<char>, i: int) -> SourcePosition {
    SourcePosition {
        line: (newlines_to(s, i) + 1) as u64,
        column: (i - line_start_to(s, i)) as u64,
    }
}

/// Index of the character containing byte offset `b`, or the character
/// count when `b` is the byte length of the text.
pub open spec fn char_at_byte(s: Seq<char>, b: int) -> int
    decreases s.len(),
{
    if s.len() == 0 {
        0
    } else if b < char_width(s[0]) {
        0
    } else {
        1 + char_at_byte(s.drop_first(), b - char_width(s[0]))
    }
}

pub proof fn lemma_byte_len_to_drop_first(s: Seq<char>, i: int)
    requires
        1 <= i <= s.len(),
        s.len() > 0,
    ensures
        byte_len_to(s, i) == char_width(s[0]) + byte_len_to(s.drop_first(), i - 1),
    decreases i,
{
    if i == 1 {
        assert(byte_len_to(s, 0) == 0);
        assert(byte_len_to(s.drop_first(), 0) == 0);
        assert(byte_len_to(s, 1) == byte_len_to(s, 0) + char_width(s[0]));
    } else {
        lemma_byte_len_to_drop_first(s, i - 1);
        assert(s.drop_first()[i - 2] == s[i - 1]);
        assert(byte_len_to(s, i) == byte_len_to(s, i - 1) + char_width(s[i - 1]));
        assert(byte_len_to(s.drop_first(), i - 1) == byte_len_to(s.drop_first(), i - 2)
            + char_width(s.drop_first()[i - 2]));
    }
}

pub proof fn lemma_byte_len_to_mono(s: Seq<char>, i: int, j: int)
    requires
        0 <= i <= j,
    ensures
        byte_len_to(s, i) <= byte_len_to(s, j),
    decreases j - i,
{
    if i < j {
        lemma_byte_len_to_mono(s, i, j - 1);
    }
}

/// Characters occupy at least one byte each, so a character boundary index
/// never exceeds its byte offset.
pub proof fn lemma_index_le_byte_len_to(s: Seq<char>, i: int)
    requires
        0 <= i,
    ensures
        i <= byte_len_to(s, i),
    decreases i,
{
    if i > 0 {
        lemma_index_le_byte_len_to(s, i - 1);
    }
}

/// A byte offset between the boundaries of character `i` (or equal to the
/// byte length, for `i` the character count) resolves to character `i`.
pub proof fn lemma_char_at_byte_found(s: Seq<char>, b: int, i: int)
    requires
        0 <= i <= s.len(),
        byte_len_to(s, i) <= b,
        i < s.len() ==> b < byte_len_to(s, i + 1),
        i == s.len() ==> b == byte_len(s),
    ensures
        char_at_byte(s, b) == i,
    decreases i,
{
    if s.len() == 0 {
    } else if i == 0 {
        assert(byte_len_to(s, 0) == 0);
        assert(byte_len_to(s, 1) == char_width(s[0]));
    } else {
        lemma_byte_len_to_drop_first(s, i);
        if i < s.len() {
            lemma_byte_len_to_drop_first(s, i + 1);
        } else {
            lemma_byte_len_to_drop_first(s, s.len() as int);
        }
        assert(byte_len_to(s, 0) == 0);
        assert(byte_len_to(s, 1) == char_width(s[0]));
        lemma_byte_len_to_mono(s, 1, i);
        lemma_char_at_byte_found(s.drop_first(), b - char_width(s[0]), i - 1);
    }
}

/// The newline count never exceeds the character index it was counted to.
pub proof fn lemma_newlines_le_index(s: Seq<char>, i: int)
    requires
        0 <= i,
    ensures
        newlines_to(s, i) <= i,
    decreases i,
{
    if i > 0 {
        lemma_newlines_le_index(s, i - 1);
    }
}

/// The line start of a position lies between 0 and the position.
pub proof fn lemma_line_start_bounds(s: Seq<char>, i: int)
    requires
        0 <= i,
    ensures
        0 <= line_start_to(s, i) <= i,
    decreases i,
{
    if i > 0 {
        lemma_line_start_bounds(s, i - 1);
    }
}

/// Line/column position of the character containing byte offset `b`, absent
/// when `b` falls outside the text's byte length.
pub open spec fn spec_position_at_byte(s: Seq<char>, b: u32) -> Option<SourcePosition> {
    if b <= byte_len(s) {
        Option::Some(position_at(s, char_at_byte(s, b as int)))
    } else {
        Option::None
    }
}

/// Resolves one byte offset to a line/column position by a single forward
/// walk over the characters.
pub fn position_at_byte(text: &str, byte: u32) -> (r: Option<SourcePosition>)
    ensures
        r == spec_position_at_byte(text@, byte),
{
    let n: usize = text.unicode_len();
    let b: u64 = byte as u64;
    let mut i: usize = 0;
    let mut bl: u64 = 0;
    let mut nl: u64 = 0;
    let mut ls: u64 = 0;
    while i < n
        invariant
            0 <= i <= n,
            n == text@.len(),
            bl == byte_len_to(text@, i as int),
            nl == newlines_to(text@, i as int),
            ls == line_start_to(text@, i as int),
            bl <= b,
            b == byte as u64,
        decreases n - i,
    {
        let c: char = text.get_char(i);
        let w: u64 = char_width_exec(c) as u64;
        proof {
            lemma_index_le_byte_len_to(text@, i as int);
            lemma_newlines_le_index(text@, i as int);
        }
        if bl + w > b {
            // byte lies inside character `i`
            proof {
                lemma_char_at_byte_found(text@, b as int, i as int);
                lemma_byte_len_to_mono(text@, i as int + 1, n as int);
                lemma_line_start_bounds(text@, i as int);
            }
            return Some(SourcePosition { line: nl + 1, column: (i as u64) - ls });
        }
        bl = bl + w;
        if c == '\n' {
            nl = nl + 1;
            ls = (i as u64) + 1;
        }
        i = i + 1;
    }
    // every character was consumed: the offset is valid only if it is
    // exactly the byte length
    if bl == b {
        proof {
            lemma_char_at_byte_found(text@, b as int, n as int);
            lemma_index_le_byte_len_to(text@, n as int);
            lemma_newlines_le_index(text@, n as int);
            lemma_line_start_bounds(text@, n as int);
        }
        Some(SourcePosition { line: nl + 1, column: (n as u64) - ls })
    } else {
        None
    }
}

/// Positions of the half-open byte range `[start, end)`, absent as soon as
/// either offset falls outside the text.
pub open spec fn spec_look_up_range_pos(s: Seq<char>, start: u32, end: u32) -> Option<
    (SourcePosition, SourcePosition),
> {
    match (spec_position_at_byte(s, start), spec_position_at_byte(s, end)) {
        (Option::Some(a), Option::Some(b)) => Option::Some((a, b)),
        _ => Option::None,
    }
}

} // verus!
