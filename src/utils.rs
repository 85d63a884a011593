use vstd::prelude::*;
use vstd::string::StrSliceExecFns;
use vstd::string::StringExecFns;

verus! {

/// A compass direction. Its index runs clockwise from `UP` (0) to `LEFT` (3).
#[derive(Clone, Copy, Debug, PartialEq, Eq, Structural)]
pub enum Direction {
    UP,
    RIGHT,
    DOWN,
    LEFT,
}

/// The direction with the given index, for `0 <= i < 4`.
pub open spec fn direction_of(i: int) -> Direction {
    if i == 0 {
        Direction::UP
    } else if i == 1 {
        Direction::RIGHT
    } else if i == 2 {
        Direction::DOWN
    } else {
        Direction::LEFT
    }
}

impl Direction {
    /// The index of this direction, in `0..4`.
    pub open spec fn index(self) -> int {
        match self {
            Direction::UP => 0,
            Direction::RIGHT => 1,
            Direction::DOWN => 2,
            Direction::LEFT => 3,
        }
    }

    /// A quarter turn counter-clockwise.
    pub open spec fn spec_left(self) -> Direction {
        direction_of((self.index() - 1) % 4)
    }

    /// A quarter turn clockwise.
    pub open spec fn spec_right(self) -> Direction {
        direction_of((self.index() + 1) % 4)
    }

    pub open spec fn is_vertical(self) -> bool {
        self == Direction::UP || self == Direction::DOWN
    }

    pub fn from_index(idx: i32) -> (r: Direction)
        requires
            0 <= idx < 4,
        ensures
            r == direction_of(idx as int),
            r.index() == idx,
    {
        match idx {
            0 => Direction::UP,
            1 => Direction::RIGHT,
            2 => Direction::DOWN,
            _ => Direction::LEFT,
        }
    }

    pub fn get_index(&self) -> (r: i32)
        ensures
            r == self.index(),
            0 <= r < 4,
            direction_of(r as int) == *self,
    {
        match self {
            Direction::UP => 0,
            Direction::RIGHT => 1,
            Direction::DOWN => 2,
            Direction::LEFT => 3,
        }
    }

    pub fn left(&self) -> (r: Direction)
        ensures
            r == self.spec_left(),
            r.index() == (self.index() + 3) % 4,
    {
        Self::from_index((self.get_index() + 3) % 4)
    }

    pub fn right(&self) -> (r: Direction)
        ensures
            r == self.spec_right(),
            r.index() == (self.index() + 1) % 4,
    {
        Self::from_index((self.get_index() + 1) % 4)
    }
}

/// Turning left undoes turning right and the other way round, and four left
/// turns bring a direction back to itself.
pub proof fn lemma_rotations(d: Direction)
    ensures
        d.spec_left().spec_right() == d,
        d.spec_right().spec_left() == d,
        d.spec_left().spec_left().spec_left().spec_left() == d,
        d.spec_right().spec_right().spec_right().spec_right() == d,
        d.spec_left() != d,
        d.spec_right() != d,
        d.spec_left() != d.spec_right(),
{
}

/// Why a glyph set could not be made.
#[derive(Clone, Copy, Debug, PartialEq, Eq, Structural)]
pub enum PipeSetError {
    /// The glyph string held this many characters instead of six.
    InvalidLength(usize),
    /// The catalog has no entry with this index.
    UnknownIndex(usize),
}

/// Number of entries in the built-in catalog of glyph sets.
pub const PIPESET_COUNT: usize = 6;

/// Number of glyphs in a set: vertical, horizontal and four corners.
pub const GLYPH_COUNT: usize = 6;

/// The glyphs of catalog entry `i`, for `i < PIPESET_COUNT`.
pub open spec fn catalog(i: int) -> Seq<char> {
    if i == 0 {
        "┃━┏┛┓┗"@
    } else if i == 1 {
        "│─┌┘┐└"@
    } else if i == 2 {
        "║═╔╝╗╚"@
    } else if i == 3 {
        "██████"@
    } else if i == 4 {
        "╽╼╭╯╮╰"@
    } else {
        "┃━╭╯╮╰"@
    }
}

/// The catalog entry with index `set`, if there is one.
pub fn catalog_entry(set: usize) -> (r: Option<&'static str>)
    ensures
        r is Some <==> set < PIPESET_COUNT,
        r is Some ==> r->0@ == catalog(set as int) && r->0@.len() == GLYPH_COUNT,
{
    proof {
        reveal_strlit("┃━┏┛┓┗");
        reveal_strlit("│─┌┘┐└");
        reveal_strlit("║═╔╝╗╚");
        reveal_strlit("██████");
        reveal_strlit("╽╼╭╯╮╰");
        reveal_strlit("┃━╭╯╮╰");
    }
    match set {
        0 => Some("┃━┏┛┓┗"),
        1 => Some("│─┌┘┐└"),
        2 => Some("║═╔╝╗╚"),
        3 => Some("██████"),
        4 => Some("╽╼╭╯╮╰"),
        5 => Some("┃━╭╯╮╰"),
        _ => None,
    }
}

/// The six glyphs that draw a pipe, in the order vertical, horizontal,
/// top-left, bottom-right, top-right and bottom-left corner.
pub struct PipeSet {
    pipes: String,
}

impl View for PipeSet {
    type V = Seq<char>;

    closed spec fn view(&self) -> Seq<char> {
        self.pipes@
    }
}

impl PipeSet {
    pub open spec fn wf(&self) -> bool {
        self@.len() == GLYPH_COUNT
    }

    pub fn new(pipes: String) -> (r: Result<PipeSet, PipeSetError>)
        ensures
            r is Ok <==> pipes@.len() == GLYPH_COUNT,
            r is Ok ==> r->Ok_0@ == pipes@ && r->Ok_0.wf(),
            r is Err ==> r->Err_0 == PipeSetError::InvalidLength(pipes@.len() as usize),
    {
        let n = pipes.as_str().unicode_len();
        if n != GLYPH_COUNT {
            return Err(PipeSetError::InvalidLength(n));
        }
        Ok(PipeSet { pipes })
    }

    fn glyph(&self, i: usize) -> (r: char)
        requires
            self.wf(),
            i < GLYPH_COUNT,
        ensures
            r == self@[i as int],
    {
        self.pipes.as_str().get_char(i)
    }

    pub fn vertical(&self) -> (r: char)
        requires
            self.wf(),
        ensures
            r == self@[0],
    {
        self.glyph(0)
    }

    pub fn horizontal(&self) -> (r: char)
        requires
            self.wf(),
        ensures
            r == self@[1],
    {
        self.glyph(1)
    }

    pub fn top_left(&self) -> (r: char)
        requires
            self.wf(),
        ensures
            r == self@[2],
    {
        self.glyph(2)
    }

    pub fn bottom_right(&self) -> (r: char)
        requires
            self.wf(),
        ensures
            r == self@[3],
    {
        self.glyph(3)
    }

    pub fn top_right(&self) -> (r: char)
        requires
            self.wf(),
        ensures
            r == self@[4],
    {
        self.glyph(4)
    }

    pub fn bottom_left(&self) -> (r: char)
        requires
            self.wf(),
        ensures
            r == self@[5],
    {
        self.glyph(5)
    }

    pub fn get_pipeset(set: usize) -> (r: Result<PipeSet, PipeSetError>)
        ensures
            r is Ok <==> set < PIPESET_COUNT,
            r is Ok ==> r->Ok_0@ == catalog(set as int) && r->Ok_0.wf(),
            r is Err ==> r->Err_0 == PipeSetError::UnknownIndex(set),
    {
        match catalog_entry(set) {
            Some(glyphs) => Self::new(String::from_str(glyphs)),
            None => Err(PipeSetError::UnknownIndex(set)),
        }
    }

    pub fn pipeset_idx_range() -> (r: core::ops::Range<usize>)
        ensures
            r.start == 0,
            r.end == PIPESET_COUNT,
    {
        0..PIPESET_COUNT
    }
}

impl Default for PipeSet {
    fn default() -> (r: PipeSet)
        ensures
            r@ == catalog(0),
            r.wf(),
    {
        match Self::get_pipeset(0) {
            Ok(p) => p,
            Err(_) => PipeSet { pipes: String::new() },
        }
    }
}

/// Every catalog entry holds six glyphs.
pub proof fn lemma_catalog_sizes(i: int)
    requires
        0 <= i < PIPESET_COUNT,
    ensures
        catalog(i).len() == GLYPH_COUNT,
{
    reveal_strlit("┃━┏┛┓┗");
    reveal_strlit("│─┌┘┐└");
    reveal_strlit("║═╔╝╗╚");
    reveal_strlit("██████");
    reveal_strlit("╽╼╭╯╮╰");
    reveal_strlit("┃━╭╯╮╰");
}

} // verus!
