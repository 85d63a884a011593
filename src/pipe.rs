use vstd::prelude::*;

use crate::random::Random;
use crate::utils::{Direction, PipeSet, GLYPH_COUNT};

verus! {

/// What a pipe is, as plain values.
pub struct PipeView {
    pub x: int,
    pub y: int,
    pub direction: Direction,
    pub color: u8,
    pub glyphs: Seq<char>,
    pub straight_bias: nat,
    pub keep_color: bool,
}

/// The cell one step from `(x, y)` towards `d`; rows grow downwards.
pub open spec fn advance(x: int, y: int, d: Direction) -> (int, int) {
    match d {
        Direction::UP => (x, y - 1),
        Direction::RIGHT => (x + 1, y),
        Direction::DOWN => (x, y + 1),
        Direction::LEFT => (x - 1, y),
    }
}

/// Whether `(x, y)` lies off a grid of `w` columns and `h` rows.
pub open spec fn outside(x: int, y: int, w: int, h: int) -> bool {
    x < 0 || x >= w || y < 0 || y >= h
}

/// The direction after a turn decided by `roll`: left for rolls above two,
/// right for the others.
pub open spec fn turn(d: Direction, roll: int) -> Direction {
    if roll > 2 {
        d.spec_left()
    } else {
        d.spec_right()
    }
}

/// Whether `after` is a quarter turn away from `before`.
pub open spec fn is_corner_pair(before: Direction, after: Direction) -> bool {
    after == before.spec_left() || after == before.spec_right()
}

/// The corner glyph of `g` that joins a pipe heading `before` to one heading
/// `after`.
pub open spec fn corner(g: Seq<char>, before: Direction, after: Direction) -> char {
    match (before, after) {
        (Direction::UP, Direction::RIGHT) | (Direction::LEFT, Direction::DOWN) => g[2],
        (Direction::RIGHT, Direction::UP) | (Direction::DOWN, Direction::LEFT) => g[3],
        (Direction::UP, Direction::LEFT) | (Direction::RIGHT, Direction::DOWN) => g[4],
        _ => g[5],
    }
}

/// The glyph of `g` for a pipe that goes on straight towards `d`.
pub open spec fn straight(g: Seq<char>, d: Direction) -> char {
    if d.is_vertical() {
        g[0]
    } else {
        g[1]
    }
}

/// One tick of pipe `p` on a `w` by `h` grid: the pipe afterwards and the
/// glyph drawn. `fresh` is the color taken on wrapping (unless the pipe keeps
/// its color), `turning` whether it turns, `roll` which way.
pub open spec fn step(p: PipeView, w: int, h: int, fresh: u8, turning: bool, roll: int) -> (
    PipeView,
    char,
) {
    let (nx, ny) = advance(p.x, p.y, p.direction);
    let wrapped = outside(nx, ny, w, h);
    let d = if turning {
        turn(p.direction, roll)
    } else {
        p.direction
    };
    let next = PipeView {
        x: if wrapped {
            nx % w
        } else {
            nx
        },
        y: if wrapped {
            ny % h
        } else {
            ny
        },
        direction: d,
        color: if wrapped && !p.keep_color {
            fresh
        } else {
            p.color
        },
        ..p
    };
    let glyph = if turning {
        corner(p.glyphs, p.direction, d)
    } else {
        straight(p.glyphs, p.direction)
    };
    (next, glyph)
}

/// One animated trail.
pub struct Pipe {
    position: [i64; 2],
    direction: Direction,
    color: u8,
    pipeset: PipeSet,
    straight_bias: usize,
    keep_color: bool,
}

impl View for Pipe {
    type V = PipeView;

    closed spec fn view(&self) -> PipeView {
        PipeView {
            x: self.position[0] as int,
            y: self.position[1] as int,
            direction: self.direction,
            color: self.color,
            glyphs: self.pipeset@,
            straight_bias: self.straight_bias as nat,
            keep_color: self.keep_color,
        }
    }
}

impl Pipe {
    /// A pipe lies on (or just past) a grid that fits `i32`, has six glyphs,
    /// and turns with a chance of one in `straight_bias`.
    pub open spec fn wf(&self) -> bool {
        &&& 0 <= self@.x <= i32::MAX
        &&& 0 <= self@.y <= i32::MAX
        &&& self@.glyphs.len() == GLYPH_COUNT
        &&& 1 <= self@.straight_bias <= u32::MAX
    }

    /// A pipe at a random point of the grid (bounds inclusive), heading a
    /// random way, in a random color.
    pub fn new(
        screen_size: &[i32; 2],
        random: &mut Random,
        pipeset: PipeSet,
        straight_bias: usize,
        keep_color: bool,
    ) -> (r: Pipe)
        requires
            screen_size[0] >= 0,
            screen_size[1] >= 0,
            pipeset.wf(),
            1 <= straight_bias <= u32::MAX,
        ensures
            r.wf(),
            0 <= r@.x <= screen_size[0],
            0 <= r@.y <= screen_size[1],
            r@.glyphs == pipeset@,
            r@.straight_bias == straight_bias,
            r@.keep_color == keep_color,
    {
        let position = random.get_random_position(screen_size);
        let direction = random.get_random_direction();
        let color = random.get_random_color();
        Pipe { position, direction, color, pipeset, straight_bias, keep_color }
    }

    /// A pipe in the given state.
    pub fn from_parts(
        position: [i64; 2],
        direction: Direction,
        color: u8,
        pipeset: PipeSet,
        straight_bias: usize,
        keep_color: bool,
    ) -> (r: Pipe)
        requires
            0 <= position[0] <= i32::MAX,
            0 <= position[1] <= i32::MAX,
            pipeset.wf(),
            1 <= straight_bias <= u32::MAX,
        ensures
            r.wf(),
            r@ == (PipeView {
                x: position[0] as int,
                y: position[1] as int,
                direction,
                color,
                glyphs: pipeset@,
                straight_bias: straight_bias as nat,
                keep_color,
            }),
    {
        Pipe { position, direction, color, pipeset, straight_bias, keep_color }
    }

    pub fn get_color(&self) -> (r: u8)
        ensures
            r == self@.color,
    {
        self.color
    }

    pub fn get_direction(&self) -> (r: Direction)
        ensures
            r == self@.direction,
    {
        self.direction
    }

    pub fn get_position(&self) -> (r: [i64; 2])
        ensures
            r[0] == self@.x,
            r[1] == self@.y,
    {
        self.position
    }

    fn change_color(&mut self, fresh: u8)
        ensures
            final(self)@ == (PipeView {
                color: if old(self)@.keep_color {
                    old(self)@.color
                } else {
                    fresh
                },
                ..old(self)@
            }),
    {
        if !self.keep_color {
            self.color = fresh;
        }
    }

    /// Moves one cell forward and wraps into the grid.
    fn move_forward(&mut self, screen_size: &[i32; 2], fresh: u8)
        requires
            old(self).wf(),
            screen_size[0] > 0,
            screen_size[1] > 0,
        ensures
            final(self).wf(),
            ({
                let (n, _) = step(
                    old(self)@,
                    screen_size[0] as int,
                    screen_size[1] as int,
                    fresh,
                    false,
                    0,
                );
                final(self)@ == n
            }),
    {
        let w = screen_size[0] as i64;
        let h = screen_size[1] as i64;
        let x = self.position[0];
        let y = self.position[1];
        let (nx, ny) = match self.direction {
            Direction::UP => (x, y - 1),
            Direction::RIGHT => (x + 1, y),
            Direction::DOWN => (x, y + 1),
            Direction::LEFT => (x - 1, y),
        };
        if nx >= w || nx < 0 || ny >= h || ny < 0 {
            self.change_color(fresh);
            let wx = match nx.checked_rem_euclid(w) {
                Some(v) => v,
                None => nx,
            };
            let wy = match ny.checked_rem_euclid(h) {
                Some(v) => v,
                None => ny,
            };
            self.position = [wx, wy];
        } else {
            self.position = [nx, ny];
        }
    }

    fn get_corner(&self, before: Direction, after: Direction) -> (r: char)
        requires
            self.wf(),
            is_corner_pair(before, after),
        ensures
            r == corner(self@.glyphs, before, after),
    {
        match (before, after) {
            (Direction::UP, Direction::RIGHT) | (Direction::LEFT, Direction::DOWN) => {
                self.pipeset.top_left()
            },
            (Direction::RIGHT, Direction::UP) | (Direction::DOWN, Direction::LEFT) => {
                self.pipeset.bottom_right()
            },
            (Direction::UP, Direction::LEFT) | (Direction::RIGHT, Direction::DOWN) => {
                self.pipeset.top_right()
            },
            _ => self.pipeset.bottom_left(),
        }
    }

    /// One tick with the random outcomes given: `fresh_color` is the color
    /// taken on wrapping, `turning` whether the pipe turns and `roll` (in
    /// `0..=6`) which way.
    pub fn apply_move(
        &mut self,
        screen_size: &[i32; 2],
        fresh_color: u8,
        turning: bool,
        roll: i64,
    ) -> (r: ([i64; 2], char))
        requires
            old(self).wf(),
            screen_size[0] > 0,
            screen_size[1] > 0,
        ensures
            final(self).wf(),
            (final(self)@, r.1) == step(
                old(self)@,
                screen_size[0] as int,
                screen_size[1] as int,
                fresh_color,
                turning,
                roll as int,
            ),
            r.0[0] == final(self)@.x,
            r.0[1] == final(self)@.y,
    {
        self.move_forward(screen_size, fresh_color);
        let glyph = if turning {
            let before = self.direction;
            self.direction = if roll > 2 {
                self.direction.left()
            } else {
                self.direction.right()
            };
            self.get_corner(before, self.direction)
        } else {
            match self.direction {
                Direction::UP | Direction::DOWN => self.pipeset.vertical(),
                Direction::RIGHT | Direction::LEFT => self.pipeset.horizontal(),
            }
        };
        (self.position, glyph)
    }

    /// One tick: move forward, wrap (taking a random color unless the pipe
    /// keeps its color), and turn with a chance of one in `straight_bias`,
    /// left for four of the seven outcomes of a roll in `0..=6`.
    pub fn get_move(&mut self, screen_size: &[i32; 2], random: &mut Random) -> (r: ([i64; 2], char))
        requires
            old(self).wf(),
            screen_size[0] > 0,
            screen_size[1] > 0,
        ensures
            final(self).wf(),
            exists|fresh: u8, turning: bool, roll: int|
                0 <= roll <= 6 && (final(self)@, r.1) == #[trigger] step(
                    old(self)@,
                    screen_size[0] as int,
                    screen_size[1] as int,
                    fresh,
                    turning,
                    roll,
                ),
            old(self)@.straight_bias == 1 ==> final(self)@.direction != old(self)@.direction,
            r.0[0] == final(self)@.x,
            r.0[1] == final(self)@.y,
    {
        let x = self.position[0];
        let y = self.position[1];
        let (nx, ny) = match self.direction {
            Direction::UP => (x, y - 1),
            Direction::RIGHT => (x + 1, y),
            Direction::DOWN => (x, y + 1),
            Direction::LEFT => (x - 1, y),
        };
        let wraps = nx >= screen_size[0] as i64 || nx < 0 || ny >= screen_size[1] as i64 || ny < 0;
        let fresh = if wraps && !self.keep_color {
            random.get_random_color()
        } else {
            self.color
        };
        let turning = random.random_ratio(1, self.straight_bias as u32);
        let roll = if turning {
            random.random_range(0, 6)
        } else {
            0
        };
        let ghost before = self@;
        let r = self.apply_move(screen_size, fresh, turning, roll);
        proof {
            crate::utils::lemma_rotations(before.direction);
        }
        assert((self@, r.1) == step(
            before,
            screen_size[0] as int,
            screen_size[1] as int,
            fresh,
            turning,
            roll as int,
        ));
        r
    }
}

/// Every turn joins two directions a quarter turn apart, so the corner
/// lookup never meets another pair.
pub proof fn lemma_turn_is_corner(d: Direction, roll: int)
    ensures
        is_corner_pair(d, turn(d, roll)),
{
}

/// Rolls of 3, 4, 5 and 6 turn left; rolls of 0, 1 and 2 turn right.
pub proof fn lemma_turn_split(d: Direction, roll: int)
    requires
        0 <= roll <= 6,
    ensures
        3 <= roll ==> turn(d, roll) == d.spec_left(),
        roll <= 2 ==> turn(d, roll) == d.spec_right(),
        turn(d, roll) != d,
{
    crate::utils::lemma_rotations(d);
}

/// The corner glyph depends on the bend's shape only: heading up then right
/// draws as heading left then down, and so on for the four corners; no
/// quarter turn falls outside these four pairs.
pub proof fn lemma_corner_symmetry(g: Seq<char>, before: Direction, after: Direction)
    ensures
        corner(g, Direction::UP, Direction::RIGHT) == corner(g, Direction::LEFT, Direction::DOWN),
        corner(g, Direction::RIGHT, Direction::UP) == corner(g, Direction::DOWN, Direction::LEFT),
        corner(g, Direction::UP, Direction::LEFT) == corner(g, Direction::RIGHT, Direction::DOWN),
        corner(g, Direction::LEFT, Direction::UP) == corner(g, Direction::DOWN, Direction::RIGHT),
        is_corner_pair(before, after) ==> {
            ||| (before, after) == (Direction::UP, Direction::RIGHT)
            ||| (before, after) == (Direction::LEFT, Direction::DOWN)
            ||| (before, after) == (Direction::RIGHT, Direction::UP)
            ||| (before, after) == (Direction::DOWN, Direction::LEFT)
            ||| (before, after) == (Direction::UP, Direction::LEFT)
            ||| (before, after) == (Direction::RIGHT, Direction::DOWN)
            ||| (before, after) == (Direction::LEFT, Direction::UP)
            ||| (before, after) == (Direction::DOWN, Direction::RIGHT)
        },
{
}

/// A pipe heading right that goes straight moves one column right, or wraps
/// to column zero (taking the fresh color unless it keeps its color) when it
/// steps past the last column.
pub proof fn lemma_step_right(p: PipeView, w: int, h: int, fresh: u8, roll: int)
    requires
        p.direction == Direction::RIGHT,
        0 <= p.x < w,
        0 <= p.y < h,
    ensures
        ({
            let (n, _) = step(p, w, h, fresh, false, roll);
            &&& p.x + 1 < w ==> n.x == p.x + 1 && n.color == p.color
            &&& p.x + 1 == w ==> n.x == 0
            &&& p.x + 1 == w && !p.keep_color ==> n.color == fresh
            &&& p.keep_color ==> n.color == p.color
            &&& n.y == p.y
            &&& n.direction == Direction::RIGHT
        }),
{
    lemma_mod_in_range(p.x + 1, w);
    lemma_mod_in_range(p.y, h);
}

/// Wrapping takes the floor modulo: a pipe heading left from column zero
/// lands on the last column, never on a negative one.
pub proof fn lemma_step_left_wraps(p: PipeView, w: int, h: int, fresh: u8, turning: bool, roll: int)
    requires
        p.direction == Direction::LEFT,
        p.x == 0,
        0 <= p.y < h,
        0 < w,
    ensures
        step(p, w, h, fresh, turning, roll).0.x == w - 1,
        step(p, w, h, fresh, turning, roll).0.y == p.y,
{
    lemma_mod_in_range(p.y, h);
    assert((-1int) % w == w - 1) by (nonlinear_arith)
        requires
            0 < w,
    ;
}

proof fn lemma_mod_in_range(v: int, n: int)
    requires
        0 <= v <= n,
        0 < n,
    ensures
        v < n ==> v % n == v,
        v == n ==> v % n == 0,
{
    assert(v < n ==> v % n == v) by (nonlinear_arith)
        requires
            0 <= v,
            0 < n,
    ;
    assert(v == n ==> v % n == 0) by (nonlinear_arith)
        requires
            0 < n,
    ;
}

/// A turning tick moves along the old direction first, then turns left on
/// rolls 3 to 6 and right on rolls 0 to 2, and draws the corner joining the
/// two directions.
pub proof fn lemma_step_turning(p: PipeView, w: int, h: int, fresh: u8, roll: int)
    requires
        0 <= roll <= 6,
    ensures
        ({
            let (n, glyph) = step(p, w, h, fresh, true, roll);
            let straight_on = step(p, w, h, fresh, false, roll).0;
            &&& 3 <= roll ==> n.direction == p.direction.spec_left()
            &&& roll <= 2 ==> n.direction == p.direction.spec_right()
            &&& glyph == corner(p.glyphs, p.direction, n.direction)
            &&& n.x == straight_on.x && n.y == straight_on.y && n.color == straight_on.color
        }),
{
}

/// On a grid of at least one cell, a tick puts the pipe at the floor
/// modulo of the cell ahead, so it never leaves the grid.
pub proof fn lemma_step_position(
    p: PipeView,
    w: int,
    h: int,
    fresh: u8,
    turning: bool,
    roll: int,
)
    requires
        0 < w,
        0 < h,
    ensures
        ({
            let (nx, ny) = advance(p.x, p.y, p.direction);
            let n = step(p, w, h, fresh, turning, roll).0;
            &&& n.x == nx % w
            &&& n.y == ny % h
            &&& 0 <= n.x < w
            &&& 0 <= n.y < h
        }),
{
    let (nx, ny) = advance(p.x, p.y, p.direction);
    if !outside(nx, ny, w, h) {
        lemma_mod_in_range(nx, w);
        lemma_mod_in_range(ny, h);
    }
}

/// Every quarter turn draws one of the four corner glyphs, and the path
/// walked backwards (each direction reversed, in the other order) draws the
/// same corner.
pub proof fn lemma_corner_reversed(g: Seq<char>, before: Direction, after: Direction)
    requires
        is_corner_pair(before, after),
    ensures
        ({
            let c = corner(g, before, after);
            c == g[2] || c == g[3] || c == g[4] || c == g[5]
        }),
        corner(g, before, after) == corner(
            g,
            after.spec_left().spec_left(),
            before.spec_left().spec_left(),
        ),
{
}

} // verus!
