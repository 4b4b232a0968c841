//! Byte-offset ranges attached to dependencies, and their translation into
//! human-readable line/column locations through a pluggable position
//! resolver. Two interchangeable backends exist: resolving directly against
//! the raw text, and resolving through a precomputed index of positions.

use vstd::prelude::*;

verus! {

use crate::text_pos::byte_len;
use crate::text_pos::char_at_byte;
use crate::text_pos::char_width_exec;
use crate::text_pos::lemma_byte_len_to_mono;
use crate::text_pos::lemma_char_at_byte_found;
use crate::text_pos::lemma_index_le_byte_len_to;
use crate::text_pos::lemma_line_start_bounds;
use crate::text_pos::lemma_newlines_le_index;
use crate::text_pos::byte_len_to;
use crate::text_pos::line_start_to;
use crate::text_pos::newlines_to;
use crate::text_pos::position_at;
use crate::text_pos::position_at_byte;
use crate::text_pos::spec_look_up_range_pos;
use vstd::string::StrSliceExecFns;

/// A resolved position in a source text: 1-based line, 0-based column,
/// both counted in character units.
#[derive(Clone, Copy, Debug, PartialEq, Eq, Structural)]
pub struct SourcePosition {
    pub line: u64,
    pub column: u64,
}

/// A resolved location: a start position, and an end position unless the
/// location collapsed to a single point.
#[derive(Clone, Copy, Debug, PartialEq, Eq)]
pub struct RealDependencyLocation {
    pub start: SourcePosition,
    pub end: Option<SourcePosition>,
}

impl RealDependencyLocation {
    pub fn new(start: SourcePosition, end: Option<SourcePosition>) -> (r: Self)
        ensures
            r.start == start,
            r.end == end,
    {
        Self { start, end }
    }
}

/// A location with no place in any source text, carrying only a name.
#[derive(Clone, Debug, PartialEq, Eq)]
pub struct SyntheticDependencyLocation {
    pub name: String,
}

/// Location attached to a dependency: either resolved against a source
/// text or synthetic.
#[derive(Clone, Debug, PartialEq, Eq)]
pub enum DependencyLocation {
    Real(RealDependencyLocation),
    Synthetic(SyntheticDependencyLocation),
}

/// Resolver from half-open byte ranges to pairs of line/column positions.
/// Every backend answers absence, not a fault, for offsets outside the
/// text it describes.
pub trait SourceLocation: Send + Sync {
    /// What this resolver answers for the half-open byte range
    /// `[start, end)`.
    spec fn spec_look_up(&self, start: u32, end: u32) -> Option<(SourcePosition, SourcePosition)>;

    fn look_up_range_pos(&self, start: u32, end: u32) -> (r: Option<
        (SourcePosition, SourcePosition),
    >)
        ensures
            r == self.spec_look_up(start, end),
    ;
}

/// Raw-text backend: resolves by walking the characters of the text
/// itself.
impl SourceLocation for str {
    open spec fn spec_look_up(&self, start: u32, end: u32) -> Option<
        (SourcePosition, SourcePosition),
    > {
        spec_look_up_range_pos(self@, start, end)
    }

    fn look_up_range_pos(&self, start: u32, end: u32) -> (r: Option<
        (SourcePosition, SourcePosition),
    >) {
        match (position_at_byte(self, start), position_at_byte(self, end)) {
            (Some(a), Some(b)) => Some((a, b)),
            _ => None,
        }
    }
}

/// Indexed backend: a precomputed mapping from byte offsets to positions.
/// Internally the table is keyed by 1-based byte positions, so lookups
/// shift the caller's 0-based offset by one to match the stored
/// convention; slot 0 is a placeholder.
pub struct SourceMap {
    positions: Vec<SourcePosition>,
    text: Ghost<Seq<char>>,
}

impl SourceMap {
    /// The text this index was computed from.
    pub closed spec fn spec_text(&self) -> Seq<char> {
        self.text@
    }

    #[verifier::type_invariant]
    spec fn inv(&self) -> bool {
        &&& byte_len(self.text@) <= u32::MAX
        &&& self.positions@.len() == byte_len(self.text@) + 2
        &&& forall|p: int|
            1 <= p <= byte_len(self.text@) + 1 ==> #[trigger] self.positions@[p] == position_at(
                self.text@,
                char_at_byte(self.text@, p - 1),
            )
    }

    /// Precomputes the position of every byte offset of `text`. Offsets are
    /// 32-bit in this id space, so the text's byte length must fit one.
    pub fn from_text(text: &str) -> (r: SourceMap)
        requires
            byte_len(text@) <= u32::MAX,
        ensures
            r.spec_text() == text@,
    {
        let n: usize = text.unicode_len();
        let mut positions: Vec<SourcePosition> = Vec::new();
        positions.push(SourcePosition { line: 1, column: 0 });
        let mut i: usize = 0;
        let mut bl: u64 = 0;
        let mut nl: u64 = 0;
        let mut ls: u64 = 0;
        while i < n
            invariant
                i <= n,
                n == text@.len(),
                byte_len(text@) <= u32::MAX,
                bl == byte_len_to(text@, i as int),
                nl == newlines_to(text@, i as int),
                ls == line_start_to(text@, i as int),
                positions@.len() == bl + 1,
                forall|p: int|
                    1 <= p <= bl ==> #[trigger] positions@[p] == position_at(
                        text@,
                        char_at_byte(text@, p - 1),
                    ),
            decreases n - i,
        {
            let c: char = text.get_char(i);
            let w: usize = char_width_exec(c);
            proof {
                lemma_index_le_byte_len_to(text@, i as int);
                lemma_newlines_le_index(text@, i as int);
                lemma_line_start_bounds(text@, i as int);
                lemma_byte_len_to_mono(text@, i as int + 1, n as int);
            }
            let pos = SourcePosition { line: nl + 1, column: (i as u64) - ls };
            let ghost bl0: u64 = bl;
            let mut k: usize = 0;
            while k < w
                invariant
                    k <= w,
                    i < n,
                    n == text@.len(),
                    w == crate::text_pos::char_width(text@[i as int]),
                    pos == position_at(text@, i as int),
                    bl0 == byte_len_to(text@, i as int),
                    positions@.len() == bl0 + 1 + k,
                    forall|p: int|
                        1 <= p <= bl0 ==> #[trigger] positions@[p] == position_at(
                            text@,
                            char_at_byte(text@, p - 1),
                        ),
                    forall|p: int| bl0 + 1 <= p <= bl0 + k ==> #[trigger] positions@[p] == pos,
                decreases w - k,
            {
                positions.push(pos);
                k = k + 1;
            }
            proof {
                assert forall|p: int|
                    bl0 + 1 <= p <= bl0 + w implies #[trigger] positions@[p] == position_at(
                    text@,
                    char_at_byte(text@, p - 1),
                ) by {
                    lemma_char_at_byte_found(text@, p - 1, i as int);
                }
            }
            bl = bl + w as u64;
            if c == '\n' {
                nl = nl + 1;
                ls = (i as u64) + 1;
            }
            i = i + 1;
        }
        proof {
            lemma_index_le_byte_len_to(text@, n as int);
            lemma_newlines_le_index(text@, n as int);
            lemma_line_start_bounds(text@, n as int);
        }
        let pos = SourcePosition { line: nl + 1, column: (n as u64) - ls };
        positions.push(pos);
        proof {
            lemma_char_at_byte_found(text@, bl as int, n as int);
        }
        let r = SourceMap { positions, text: Ghost(text@) };
        proof {
            assert forall|p: int|
                1 <= p <= byte_len(text@) + 1 implies #[trigger] r.positions@[p] == position_at(
                text@,
                char_at_byte(text@, p - 1),
            ) by {
            }
        }
        r
    }
}

impl SourceLocation for SourceMap {
    open spec fn spec_look_up(&self, start: u32, end: u32) -> Option<
        (SourcePosition, SourcePosition),
    > {
        spec_look_up_range_pos(self.spec_text(), start, end)
    }

    fn look_up_range_pos(&self, start: u32, end: u32) -> (r: Option<
        (SourcePosition, SourcePosition),
    >) {
        proof {
            use_type_invariant(self);
        }
        // shift the 0-based offsets to the stored 1-based convention
        let s1: u64 = start as u64 + 1;
        let e1: u64 = end as u64 + 1;
        let len: u64 = self.positions.len() as u64;
        if s1 < len && e1 < len {
            let pa = self.positions[s1 as usize];
            let pb = self.positions[e1 as usize];
            Some((pa, pb))
        } else {
            None
        }
    }
}

/// Anything that can lend out a position resolver.
pub trait AsLoc {
    type Loc: SourceLocation + ?Sized;

    /// What the lent resolver answers for the half-open byte range
    /// `[start, end)`.
    spec fn spec_source_look_up(&self, start: u32, end: u32) -> Option<
        (SourcePosition, SourcePosition),
    >;

    fn as_loc(&self) -> (r: &Self::Loc)
        ensures
            forall|start: u32, end: u32| #[trigger]
                r.spec_look_up(start, end) == self.spec_source_look_up(start, end),
    ;
}

impl<'t> AsLoc for &'t str {
    type Loc = str;

    open spec fn spec_source_look_up(&self, start: u32, end: u32) -> Option<
        (SourcePosition, SourcePosition),
    > {
        spec_look_up_range_pos((*self)@, start, end)
    }

    fn as_loc(&self) -> (r: &str) {
        *self
    }
}

impl<'t> AsLoc for &'t SourceMap {
    type Loc = SourceMap;

    open spec fn spec_source_look_up(&self, start: u32, end: u32) -> Option<
        (SourcePosition, SourcePosition),
    > {
        spec_look_up_range_pos((*self).spec_text(), start, end)
    }

    fn as_loc(&self) -> (r: &SourceMap) {
        *self
    }
}

/// A half-open byte-offset range `[start, end)` in a source file, 0-based.
#[derive(Debug, Clone, Hash, Eq, PartialEq, Structural)]
pub struct DependencyRange {
    pub end: u32,
    pub start: u32,
}

impl From<(u32, u32)> for DependencyRange {
    fn from(range: (u32, u32)) -> (r: Self) {
        Self { start: range.0, end: range.1 }
    }
}

impl vstd::std_specs::convert::FromSpecImpl<(u32, u32)> for DependencyRange {
    open spec fn obeys_from_spec() -> bool {
        true
    }

    open spec fn from_spec(range: (u32, u32)) -> Self {
        DependencyRange { start: range.0, end: range.1 }
    }
}

impl DependencyRange {
    pub fn new(start: u32, end: u32) -> (r: Self)
        ensures
            r.start == start,
            r.end == end,
    {
        DependencyRange { end, start }
    }

    /// How a resolver's answer becomes a location: coinciding endpoints
    /// collapse to a point, differing endpoints keep a start/end span, an
    /// absent answer stays absent.
    pub open spec fn spec_to_loc(looked: Option<(SourcePosition, SourcePosition)>) -> Option<
        DependencyLocation,
    > {
        match looked {
            Option::Some((s, e)) => Option::Some(
                DependencyLocation::Real(
                    if s.line == e.line && s.column == e.column {
                        RealDependencyLocation { start: s, end: Option::None }
                    } else {
                        RealDependencyLocation { start: s, end: Option::Some(e) }
                    },
                ),
            ),
            Option::None => Option::None,
        }
    }

    /// Converts the range into a location using the supplied resolver, if
    /// any; absence of a resolver or an unresolvable offset yields absence.
    pub fn to_loc<T: AsLoc>(&self, source: Option<T>) -> (r: Option<DependencyLocation>)
        ensures
            r == match source {
                Option::Some(src) => Self::spec_to_loc(
                    src.spec_source_look_up(self.start, self.end),
                ),
                Option::None => Option::None::<DependencyLocation>,
            },
    {
        match source {
            Some(src) => {
                match src.as_loc().look_up_range_pos(self.start, self.end) {
                    Some((start, end)) => {
                        let loc = if start.line == end.line && start.column == end.column {
                            RealDependencyLocation::new(start, None)
                        } else {
                            RealDependencyLocation::new(start, Some(end))
                        };
                        Some(DependencyLocation::Real(loc))
                    },
                    None => None,
                }
            },
            None => None,
        }
    }
}

/// Law: the indexed backend and the raw-text backend agree exactly, for
/// every byte range, whenever the index was computed from the same text.
pub proof fn lemma_resolver_backends_agree(map: SourceMap, text: &str, start: u32, end: u32)
    requires
        map.spec_text() == text@,
    ensures
        map.spec_look_up(start, end) == text.spec_look_up(start, end),
{
}

/// Law: a resolved range whose endpoints coincide becomes a point location
/// (no end), one whose endpoints differ becomes a start/end span, and an
/// unresolved range becomes no location at all. A range with equal byte
/// offsets always resolves to coinciding endpoints.
pub proof fn lemma_point_or_span(s: Seq<char>, start: u32, end: u32)
    ensures
        ({
            let looked = spec_look_up_range_pos(s, start, end);
            let loc = DependencyRange::spec_to_loc(looked);
            match looked {
                Option::Some((p, q)) => if p == q {
                    loc == Option::Some(
                        DependencyLocation::Real(
                            (RealDependencyLocation { start: p, end: Option::None }),
                        ),
                    )
                } else {
                    loc == Option::Some(
                        DependencyLocation::Real(
                            (RealDependencyLocation { start: p, end: Option::Some(q) }),
                        ),
                    )
                },
                Option::None => loc is None,
            }
        }),
        start == end ==> match spec_look_up_range_pos(s, start, end) {
            Option::Some((p, q)) => p == q,
            Option::None => true,
        },
{
}

} // verus!
