use vstd::prelude::*;

use crate::overlay::{box_changes, box_queued, byte_len, line_views};
use crate::pipe::{step, Pipe, PipeView};
use crate::random::Random;
use crate::utils::{catalog, PipeSet, PipeSetError, PIPESET_COUNT};

verus! {

/// The settings of an animation, fixed when it starts.
#[derive(Clone, Copy, Debug, PartialEq, Eq, Structural)]
pub struct Args {
    /// Show the debug box.
    pub debug: bool,
    /// Number of pipes at start.
    pub pipes: usize,
    /// Catalog index of the glyph set.
    pub pipeset: usize,
    /// Frames per second.
    pub fps: usize,
    /// Frames between full clears of the screen.
    pub frame_clear: usize,
    /// A pipe turns with a chance of one in this many.
    pub straight_bias: usize,
    /// Give each pipe a glyph set drawn from the catalog.
    pub random_pipeset: bool,
    /// Leave the foreground color alone.
    pub no_colors: bool,
    /// Pipes keep their color when they wrap.
    pub keep_colors: bool,
    /// Clear to the terminal's own background.
    pub transparent: bool,
}

impl Args {
    /// Settings an animation can run with.
    pub open spec fn valid(self) -> bool {
        &&& 1 <= self.straight_bias <= u32::MAX
    }

    /// Whether a new pipe can get its glyph set.
    pub open spec fn pipeset_available(self) -> bool {
        self.random_pipeset || self.pipeset < PIPESET_COUNT
    }
}

/// A change queued for the terminal.
#[derive(Debug, PartialEq, Eq)]
pub enum Command {
    /// Clear the whole screen, to the terminal's background or to palette
    /// entry zero.
    ClearScreen { transparent: bool },
    /// Set the foreground to a palette entry.
    Foreground(u8),
    /// Move the cursor to column `x`, row `y`.
    MoveTo { x: usize, y: usize },
    /// Write one glyph at the cursor.
    Glyph(char),
    /// Write text at the cursor.
    Text(String),
}

/// An event read from the terminal.
#[derive(Clone, Copy, Debug, PartialEq, Eq, Structural)]
pub enum Input {
    Key(char),
    Resized { cols: usize, rows: usize },
    Other,
}

/// The state of an animation, as plain values.
pub struct AnimationView {
    pub pipes: Seq<PipeView>,
    pub frames_since_clear: nat,
    pub running: bool,
    pub debug: bool,
    pub width: int,
    pub height: int,
    pub args: Args,
    pub changes: Seq<Command>,
}

pub open spec fn clear_command(a: Args) -> Command {
    Command::ClearScreen { transparent: a.transparent }
}

/// A terminal size held as `i32`; larger sizes are held as `i32::MAX`.
pub open spec fn clamp_size(n: usize) -> int {
    if n > i32::MAX {
        i32::MAX as int
    } else {
        n as int
    }
}

/// The counter after one tick, and whether the tick clears the screen: it
/// clears when the counter has reached the interval, then counts the tick.
pub open spec fn tick_counter(frames: nat, interval: nat) -> (nat, bool) {
    if frames == interval {
        (1, true)
    } else {
        (frames + 1, false)
    }
}

/// `new` is `old` after one tick of a `w` by `h` grid that drew `glyph`.
pub open spec fn moved(old: PipeView, new: PipeView, glyph: char, w: int, h: int) -> bool {
    exists|fresh: u8, turning: bool, roll: int|
        0 <= roll <= 6 && (new, glyph) == #[trigger] step(old, w, h, fresh, turning, roll)
}

/// What drawing pipe `p` with `glyph` queues.
pub open spec fn pipe_draw(p: PipeView, glyph: char, colors: bool) -> Seq<Command> {
    let at = seq![Command::MoveTo { x: p.x as usize, y: p.y as usize }, Command::Glyph(glyph)];
    if colors {
        seq![Command::Foreground(p.color)] + at
    } else {
        at
    }
}

/// What drawing the pipes `ps`, in order, with glyphs `gs` queues.
pub open spec fn frame_draws(ps: Seq<PipeView>, gs: Seq<char>, colors: bool) -> Seq<Command>
    decreases ps.len(),
{
    if ps.len() == 0 {
        Seq::empty()
    } else {
        frame_draws(ps.drop_last(), gs.drop_last(), colors) + pipe_draw(
            ps.last(),
            gs.last(),
            colors,
        )
    }
}

/// `p` is a new pipe made from the settings `a` on a `w` by `h` grid.
pub open spec fn fresh_pipe(p: PipeView, a: Args, w: int, h: int) -> bool {
    &&& p.straight_bias == a.straight_bias
    &&& p.keep_color == a.keep_colors
    &&& 0 <= p.x <= w
    &&& 0 <= p.y <= h
    &&& !a.random_pipeset ==> p.glyphs == catalog(a.pipeset as int)
    &&& a.random_pipeset ==> exists|i: int|
        0 <= i < PIPESET_COUNT && p.glyphs == #[trigger] catalog(i)
}

/// `b` is `a` with one more pipe at the end, made from the settings.
pub open spec fn added_pipe(a: AnimationView, b: AnimationView) -> bool {
    &&& b.pipes.len() == a.pipes.len() + 1
    &&& b.pipes.drop_last() == a.pipes
    &&& fresh_pipe(b.pipes.last(), a.args, a.width, a.height)
    &&& b.changes == a.changes
    &&& b.frames_since_clear == a.frames_since_clear
    &&& b.running == a.running
    &&& b.debug == a.debug
    &&& b.width == a.width
    &&& b.height == a.height
    &&& b.args == a.args
}

/// `b` is `a` without its last pipe, with a clear queued and the counter
/// reset.
pub open spec fn removed_pipe(a: AnimationView, b: AnimationView) -> bool {
    &&& b.pipes == if a.pipes.len() == 0 {
        a.pipes
    } else {
        a.pipes.drop_last()
    }
    &&& b.changes == a.changes.push(clear_command(a.args))
    &&& b.frames_since_clear == 0
    &&& b.running == a.running
    &&& b.debug == a.debug
    &&& b.width == a.width
    &&& b.height == a.height
    &&& b.args == a.args
}

/// `b` is `a` after one tick in which the pipes drew the glyphs `gs`.
pub open spec fn ticked_with(a: AnimationView, b: AnimationView, gs: Seq<char>) -> bool {
    let (f, cleared) = tick_counter(a.frames_since_clear, a.args.frame_clear as nat);
    &&& b.frames_since_clear == f
    &&& b.pipes.len() == a.pipes.len()
    &&& gs.len() == a.pipes.len()
    &&& forall|i: int|
        0 <= i < a.pipes.len() ==> moved(a.pipes[i], #[trigger] b.pipes[i], gs[i], a.width, a.height)
    &&& b.changes == a.changes + (if cleared {
        seq![clear_command(a.args)]
    } else {
        Seq::empty()
    }) + frame_draws(b.pipes, gs, !a.args.no_colors)
    &&& b.running == a.running
    &&& b.debug == a.debug
    &&& b.width == a.width
    &&& b.height == a.height
    &&& b.args == a.args
}

/// `b` is `a` with every pipe moved one tick, in order, drawing the glyphs
/// `gs`, and what they drew queued.
pub open spec fn drew(a: AnimationView, b: AnimationView, gs: Seq<char>) -> bool {
    &&& b.pipes.len() == a.pipes.len()
    &&& gs.len() == a.pipes.len()
    &&& forall|i: int|
        0 <= i < a.pipes.len() ==> moved(a.pipes[i], #[trigger] b.pipes[i], gs[i], a.width, a.height)
    &&& b.changes == a.changes + frame_draws(b.pipes, gs, !a.args.no_colors)
    &&& b.frames_since_clear == a.frames_since_clear
    &&& b.running == a.running
    &&& b.debug == a.debug
    &&& b.width == a.width
    &&& b.height == a.height
    &&& b.args == a.args
}

/// `b` is `a` after one tick.
pub open spec fn ticked(a: AnimationView, b: AnimationView) -> bool {
    exists|gs: Seq<char>| #[trigger] ticked_with(a, b, gs)
}

/// `b` has the pipes and the settings of `a`.
pub open spec fn same_pipes(a: AnimationView, b: AnimationView) -> bool {
    &&& b.pipes == a.pipes
    &&& b.args == a.args
}

/// `b` is `a` after the event `input`, when the event needs no new pipe.
pub open spec fn handled(a: AnimationView, input: Input, b: AnimationView) -> bool {
    match input {
        Input::Key('q') => same_pipes(a, b) && b.changes == a.changes && !b.running && b.debug
            == a.debug && b.frames_since_clear == a.frames_since_clear && b.width == a.width
            && b.height == a.height,
        Input::Key('c') => same_pipes(a, b) && b.changes == a.changes.push(clear_command(a.args))
            && b.running == a.running && b.debug == a.debug && b.frames_since_clear == 0
            && b.width == a.width && b.height == a.height,
        Input::Key('d') => same_pipes(a, b) && b.changes == a.changes.push(clear_command(a.args))
            && b.running == a.running && b.debug == !a.debug && b.frames_since_clear
            == a.frames_since_clear && b.width == a.width && b.height == a.height,
        Input::Key('+') => added_pipe(a, b),
        Input::Key('-') => removed_pipe(a, b),
        Input::Resized { cols, rows } => same_pipes(a, b) && b.changes == a.changes.push(
            clear_command(a.args),
        ) && b.running == a.running && b.debug == a.debug && b.frames_since_clear == 0
            && b.width == clamp_size(cols) && b.height == clamp_size(rows),
        _ => same_pipes(a, b) && b.changes == a.changes && b.running == a.running && b.debug
            == a.debug && b.frames_since_clear == a.frames_since_clear && b.width == a.width
            && b.height == a.height,
    }
}

/// Why an animation could not start.
#[derive(Clone, Copy, Debug, PartialEq, Eq, Structural)]
pub enum RunError {
    AlreadyRunning,
}

/// A running animation: its pipes, the settings, the cached screen size and
/// the changes queued for the terminal.
pub struct PipesRs {
    random: Random,
    screen_size: [i32; 2],
    pipes: Vec<Pipe>,
    frames_since_clear: usize,
    running: bool,
    debug: bool,
    args: Args,
    changes: Vec<Command>,
}

impl View for PipesRs {
    type V = AnimationView;

    closed spec fn view(&self) -> AnimationView {
        AnimationView {
            pipes: self.pipes@.map_values(|p: Pipe| p@),
            frames_since_clear: self.frames_since_clear as nat,
            running: self.running,
            debug: self.debug,
            width: self.screen_size[0] as int,
            height: self.screen_size[1] as int,
            args: self.args,
            changes: self.changes@,
        }
    }
}

impl PipesRs {
    pub closed spec fn wf(&self) -> bool {
        &&& self.args.valid()
        &&& self.screen_size[0] >= 0
        &&& self.screen_size[1] >= 0
        &&& self.args.frame_clear > 0 ==> self.frames_since_clear <= self.args.frame_clear
        &&& forall|i: int| 0 <= i < self.pipes@.len() ==> (#[trigger] self.pipes@[i]).wf()
    }

    /// Whether a tick can run: with any pipe, the grid must not be empty,
    /// and the frame counter must have room to count the tick.
    pub open spec fn can_tick(&self) -> bool {
        &&& self@.pipes.len() > 0 ==> self@.width > 0 && self@.height > 0
        &&& self@.frames_since_clear == self@.args.frame_clear || self@.frames_since_clear
            < usize::MAX
    }

    /// Moves every pipe one tick, in order, and queues what each draws.
    fn update_pipes(&mut self)
        requires
            old(self).wf(),
            old(self)@.pipes.len() > 0 ==> old(self)@.width > 0 && old(self)@.height > 0,
        ensures
            final(self).wf(),
            exists|gs: Seq<char>| #[trigger] drew(old(self)@, final(self)@, gs),
    {
        let n = self.pipes.len();
        let ghost a = self@;
        let ghost mut gs: Seq<char> = Seq::empty();
        let mut i: usize = 0;
        while i < n
            invariant
                self.wf(),
                a == old(self)@,
                self.pipes.len() == n,
                n == a.pipes.len(),
                0 <= i <= n,
                gs.len() == i,
                a.pipes.len() > 0 ==> a.width > 0 && a.height > 0,
                forall|j: int|
                    0 <= j < i ==> moved(a.pipes[j], #[trigger] self@.pipes[j], gs[j], a.width, a.height),
                forall|j: int| i <= j < n ==> #[trigger] self@.pipes[j] == a.pipes[j],
                self@.changes == a.changes + frame_draws(
                    self@.pipes.take(i as int),
                    gs,
                    !a.args.no_colors,
                ),
                self@.frames_since_clear == a.frames_since_clear,
                self@.running == a.running,
                self@.debug == a.debug,
                self@.width == a.width,
                self@.height == a.height,
                self@.args == a.args,
            decreases n - i,
        {
            let ghost prev = self@;
            let ghost before = self.pipes@[i as int]@;
            assert(self.pipes@[i as int].wf());
            assert(self@.pipes[i as int] == before);
            assert(before == a.pipes[i as int]);
            let (position, glyph) = self.pipes[i].get_move(&self.screen_size, &mut self.random);
            if !self.args.no_colors {
                let color = self.pipes[i].get_color();
                self.changes.push(Command::Foreground(color));
            }
            self.changes.push(Command::MoveTo { x: position[0] as usize, y: position[1] as usize });
            self.changes.push(Command::Glyph(glyph));
            proof {
                let p = self@.pipes[i as int];
                let old_gs = gs;
                gs = gs.push(glyph);
                assert(p == self.pipes@[i as int]@);
                assert(exists|fresh: u8, turning: bool, roll: int|
                    0 <= roll <= 6 && (p, glyph) == #[trigger] step(
                        before,
                        a.width,
                        a.height,
                        fresh,
                        turning,
                        roll,
                    ));
                assert(moved(a.pipes[i as int], p, glyph, a.width, a.height));
                assert(self@.pipes =~= prev.pipes.update(i as int, p));
                assert(self@.pipes.take(i + 1).drop_last() =~= prev.pipes.take(i as int));
                assert(gs.drop_last() =~= old_gs);
                assert(self@.changes =~= prev.changes + pipe_draw(p, glyph, !a.args.no_colors));
                assert(forall|j: int|
                    0 <= j < i + 1 ==> moved(
                        a.pipes[j],
                        #[trigger] self@.pipes[j],
                        gs[j],
                        a.width,
                        a.height,
                    ));
                assert(self@.changes =~= a.changes + frame_draws(
                    self@.pipes.take(i + 1),
                    gs,
                    !a.args.no_colors,
                ));
            }
            i = i + 1;
        }
        proof {
            assert(self@.pipes.take(n as int) =~= self@.pipes);
            assert(drew(a, self@, gs));
        }
    }

    /// An animation on a screen of `screen_size` columns and rows, with a
    /// clear of the screen queued and `args.pipes` pipes made.
    pub fn new(random: Random, screen_size: [i32; 2], args: Args) -> (r: Result<
        PipesRs,
        PipeSetError,
    >)
        requires
            args.valid(),
            screen_size[0] >= 0,
            screen_size[1] >= 0,
        ensures
            r is Ok <==> args.pipeset_available(),
            r is Err ==> r->Err_0 == PipeSetError::UnknownIndex(args.pipeset),
            r is Ok ==> {
                let v = r->Ok_0@;
                &&& r->Ok_0.wf()
                &&& v.pipes.len() == args.pipes
                &&& forall|i: int|
                    0 <= i < v.pipes.len() ==> fresh_pipe(
                        #[trigger] v.pipes[i],
                        args,
                        screen_size[0] as int,
                        screen_size[1] as int,
                    )
                &&& v.frames_since_clear == 0
                &&& !v.running
                &&& v.debug == args.debug
                &&& v.width == screen_size[0]
                &&& v.height == screen_size[1]
                &&& v.args == args
                &&& v.changes == seq![clear_command(args)]
            },
    {
        if !args.random_pipeset && args.pipeset >= PIPESET_COUNT {
            return Err(PipeSetError::UnknownIndex(args.pipeset));
        }
        let mut new = PipesRs {
            random,
            screen_size,
            pipes: Vec::new(),
            frames_since_clear: 0,
            running: false,
            debug: args.debug,
            args,
            changes: Vec::new(),
        };
        new.clear();
        let mut k: usize = 0;
        while k < args.pipes
            invariant
                new.wf(),
                k <= args.pipes,
                args.pipeset_available(),
                new@.pipes.len() == k,
                forall|i: int|
                    0 <= i < k ==> fresh_pipe(
                        #[trigger] new@.pipes[i],
                        args,
                        screen_size[0] as int,
                        screen_size[1] as int,
                    ),
                new@.frames_since_clear == 0,
                !new@.running,
                new@.debug == args.debug,
                new@.width == screen_size[0],
                new@.height == screen_size[1],
                new@.args == args,
                new@.changes == seq![clear_command(args)],
            decreases args.pipes - k,
        {
            let ghost before = new@;
            match new.add_pipe() {
                Ok(()) => {},
                Err(e) => {
                    return Err(e);
                },
            }
            proof {
                assert forall|i: int| 0 <= i < k + 1 implies fresh_pipe(
                    #[trigger] new@.pipes[i],
                    args,
                    screen_size[0] as int,
                    screen_size[1] as int,
                ) by {
                    if i < k {
                        assert(new@.pipes[i] == new@.pipes.drop_last()[i]);
                    }
                }
            }
            k = k + 1;
        }
        Ok(new)
    }

    fn clear(&mut self)
        ensures
            final(self)@ == (AnimationView {
                changes: old(self)@.changes.push(clear_command(old(self)@.args)),
                ..old(self)@
            }),
            old(self).wf() ==> final(self).wf(),
    {
        self.changes.push(Command::ClearScreen { transparent: self.args.transparent });
    }

    /// Drops the newest pipe, queues a clear so its trail goes, and resets
    /// the counter.
    pub fn remove_pipe(&mut self)
        requires
            old(self).wf(),
        ensures
            final(self).wf(),
            removed_pipe(old(self)@, final(self)@),
    {
        let ghost before = self.pipes@;
        self.pipes.pop();
        proof {
            if before.len() > 0 {
                assert(self.pipes@ == before.drop_last());
                assert(self@.pipes =~= old(self)@.pipes.drop_last());
            } else {
                assert(self@.pipes =~= old(self)@.pipes);
            }
        }
        self.clear();
        self.frames_since_clear = 0;
    }

    /// One frame: clear when the counter has reached the interval, count the
    /// frame, then move every pipe and queue what it draws.
    pub fn tick(&mut self)
        requires
            old(self).wf(),
            old(self).can_tick(),
        ensures
            final(self).wf(),
            ticked(old(self)@, final(self)@),
    {
        if self.frames_since_clear == self.args.frame_clear {
            self.frames_since_clear = 0;
            self.clear();
        }
        self.frames_since_clear = self.frames_since_clear + 1;
        let ghost mid = self@;
        self.update_pipes();
        proof {
            let gs = choose|gs: Seq<char>| #[trigger] drew(mid, self@, gs);
            let a = old(self)@;
            let (f, cleared) = tick_counter(a.frames_since_clear, a.args.frame_clear as nat);
            assert(self@.changes =~= a.changes + (if cleared {
                seq![clear_command(a.args)]
            } else {
                Seq::empty()
            }) + frame_draws(self@.pipes, gs, !a.args.no_colors));
            assert(ticked_with(a, self@, gs));
        }
    }

    /// Reacts to one terminal event: `q` stops, `c` clears, `d` toggles the
    /// debug box, `+` adds a pipe, `-` removes one, a resize updates the
    /// screen size and clears; anything else is ignored.
    pub fn handle_input(&mut self, input: Input) -> (r: Result<(), PipeSetError>)
        requires
            old(self).wf(),
        ensures
            final(self).wf(),
            r is Err <==> input == Input::Key('+') && !old(self)@.args.pipeset_available(),
            r is Ok ==> handled(old(self)@, input, final(self)@),
            r is Err ==> final(self)@ == old(self)@,
    {
        match input {
            Input::Key(c) => {
                if c == 'q' {
                    self.stop();
                } else if c == 'c' {
                    self.clear();
                    self.frames_since_clear = 0;
                } else if c == 'd' {
                    self.debug = !self.debug;
                    self.clear();
                } else if c == '+' {
                    return self.add_pipe();
                } else if c == '-' {
                    self.remove_pipe();
                }
            },
            Input::Resized { cols, rows } => {
                let w = if cols > i32::MAX as usize {
                    i32::MAX
                } else {
                    cols as i32
                };
                let h = if rows > i32::MAX as usize {
                    i32::MAX
                } else {
                    rows as i32
                };
                self.screen_size = [w, h];
                self.clear();
                self.frames_since_clear = 0;
            },
            Input::Other => {},
        }
        Ok(())
    }

    /// Marks the animation as running; fails if it already was.
    pub fn start(&mut self) -> (r: Result<(), RunError>)
        ensures
            r is Err <==> old(self)@.running,
            final(self)@ == (AnimationView { running: true, ..old(self)@ }),
            old(self).wf() ==> final(self).wf(),
    {
        if self.running {
            return Err(RunError::AlreadyRunning);
        }
        self.running = true;
        Ok(())
    }

    pub fn stop(&mut self)
        ensures
            final(self)@ == (AnimationView { running: false, ..old(self)@ }),
            old(self).wf() ==> final(self).wf(),
    {
        self.running = false;
    }

    /// Queues a move of the cursor to the top left corner, to leave the
    /// terminal tidy.
    pub fn cleanup(&mut self)
        ensures
            final(self)@ == (AnimationView {
                changes: old(self)@.changes.push(Command::MoveTo { x: 0, y: 0 }),
                ..old(self)@
            }),
            old(self).wf() ==> final(self).wf(),
    {
        self.changes.push(Command::MoveTo { x: 0, y: 0 });
    }

    /// Queues `lines` drawn in a bordered box with its top left corner at
    /// `position` (see `box_changes`).
    pub fn draw_box(&mut self, position: [usize; 2], lines: Vec<String>)
        requires
            lines.len() > 0,
            position[1] + lines.len() + 1 <= usize::MAX,
            forall|i: int| 0 <= i < lines.len() ==> byte_len(#[trigger] lines@[i]@) + 2 <= usize::MAX,
        ensures
            exists|cmds: Seq<Command>|
                #[trigger] box_queued(cmds, position[0], position[1], line_views(lines@))
                    && final(self)@ == (AnimationView {
                    changes: old(self)@.changes + cmds,
                    ..old(self)@
                }),
            old(self).wf() ==> final(self).wf(),
    {
        let mut cmds = box_changes(position, &lines);
        let ghost queued = cmds@;
        self.changes.append(&mut cmds);
        assert(self@.changes == old(self)@.changes + queued);
    }

    /// Hands out the queued changes, oldest first, and empties the queue.
    pub fn take_changes(&mut self) -> (r: Vec<Command>)
        ensures
            r@ == old(self)@.changes,
            final(self)@ == (AnimationView { changes: Seq::empty(), ..old(self)@ }),
            old(self).wf() ==> final(self).wf(),
    {
        let mut out: Vec<Command> = Vec::new();
        core::mem::swap(&mut out, &mut self.changes);
        proof {
            assert(self@.changes =~= Seq::<Command>::empty());
        }
        out
    }

    pub fn pipes(&self) -> (r: &Vec<Pipe>)
        ensures
            r@.map_values(|p: Pipe| p@) == self@.pipes,
    {
        &self.pipes
    }

    pub fn frames_since_clear(&self) -> (r: usize)
        ensures
            r == self@.frames_since_clear,
    {
        self.frames_since_clear
    }

    pub fn is_running(&self) -> (r: bool)
        ensures
            r == self@.running,
    {
        self.running
    }

    pub fn is_debug(&self) -> (r: bool)
        ensures
            r == self@.debug,
    {
        self.debug
    }

    pub fn screen_size(&self) -> (r: [i32; 2])
        ensures
            r[0] == self@.width,
            r[1] == self@.height,
    {
        self.screen_size
    }

    pub fn args(&self) -> (r: Args)
        ensures
            r == self@.args,
    {
        self.args
    }

    /// Whether a tick may run now: with any pipe, the screen must have at
    /// least one column and one row, and the frame counter must have room.
    pub fn ready_to_tick(&self) -> (r: bool)
        ensures
            r == self.can_tick(),
    {
        (self.pipes.len() == 0 || (self.screen_size[0] > 0 && self.screen_size[1] > 0)) && (
        self.frames_since_clear == self.args.frame_clear || self.frames_since_clear < usize::MAX)
    }

    pub fn add_pipe(&mut self) -> (r: Result<(), PipeSetError>)
        requires
            old(self).wf(),
        ensures
            final(self).wf(),
            r is Ok <==> old(self)@.args.pipeset_available(),
            r is Ok ==> added_pipe(old(self)@, final(self)@),
            r is Err ==> final(self)@ == old(self)@ && r->Err_0 == PipeSetError::UnknownIndex(
                old(self)@.args.pipeset,
            ),
    {
        let pipeset = if self.args.random_pipeset {
            self.random.random_pipeset()
        } else {
            PipeSet::get_pipeset(self.args.pipeset)
        };
        let pipeset = match pipeset {
            Ok(p) => p,
            Err(e) => {
                return Err(e);
            },
        };
        let pipe = Pipe::new(
            &self.screen_size,
            &mut self.random,
            pipeset,
            self.args.straight_bias,
            self.args.keep_colors,
        );
        let ghost before = self.pipes@;
        self.pipes.push(pipe);
        proof {
            assert(self.pipes@.drop_last() == before);
            assert(self@.pipes.drop_last() =~= old(self)@.pipes);
        }
        Ok(())
    }
}

/// The counter after `k` ticks from `frames`, with clears every `interval`.
pub open spec fn counter_after(frames: nat, interval: nat, k: nat) -> nat
    decreases k,
{
    if k == 0 {
        frames
    } else {
        tick_counter(counter_after(frames, interval, (k - 1) as nat), interval).0
    }
}

/// How many of `k` ticks from `frames` clear the screen.
pub open spec fn clears_after(frames: nat, interval: nat, k: nat) -> nat
    decreases k,
{
    if k == 0 {
        0
    } else {
        clears_after(frames, interval, (k - 1) as nat) + if tick_counter(
            counter_after(frames, interval, (k - 1) as nat),
            interval,
        ).1 {
            1nat
        } else {
            0nat
        }
    }
}

/// From a fresh counter, the first `interval` ticks count up without
/// clearing; the tick after them clears once and leaves the counter at one
/// (reset to zero, then counting that tick).
pub proof fn lemma_clear_interval(interval: nat, k: nat)
    requires
        1 <= interval,
        k <= interval,
    ensures
        counter_after(0, interval, k) == k,
        clears_after(0, interval, k) == 0,
        counter_after(0, interval, interval + 1) == 1,
        clears_after(0, interval, interval + 1) == 1,
{
    lemma_count_up(interval, k);
    lemma_count_up(interval, interval);
}

/// With a clear interval of zero, the first tick clears and no later one
/// does; the counter then counts every tick.
pub proof fn lemma_zero_interval(k: nat)
    ensures
        counter_after(0, 0, k) == k,
        clears_after(0, 0, k) == if k == 0 {
            0nat
        } else {
            1nat
        },
    decreases k,
{
    if k > 0 {
        lemma_zero_interval((k - 1) as nat);
    }
}

proof fn lemma_count_up(interval: nat, k: nat)
    requires
        k <= interval,
    ensures
        counter_after(0, interval, k) == k,
        clears_after(0, interval, k) == 0,
    decreases k,
{
    if k > 0 {
        lemma_count_up(interval, (k - 1) as nat);
    }
}

/// Adding a pipe and then removing one gives back the same pipes, with one
/// clear queued and the counter reset.
pub proof fn lemma_add_then_remove(a: AnimationView, b: AnimationView, c: AnimationView)
    requires
        handled(a, Input::Key('+'), b),
        handled(b, Input::Key('-'), c),
    ensures
        c.pipes == a.pipes,
        c.changes == a.changes.push(clear_command(a.args)),
        c.frames_since_clear == 0,
        c.args == a.args,
        c.width == a.width && c.height == a.height,
{
}

/// After a resize, the next tick moves every pipe on the new grid.
pub proof fn lemma_resize_then_tick(
    a: AnimationView,
    cols: usize,
    rows: usize,
    b: AnimationView,
    c: AnimationView,
    gs: Seq<char>,
)
    requires
        handled(a, Input::Resized { cols, rows }, b),
        ticked_with(b, c, gs),
    ensures
        forall|i: int|
            0 <= i < a.pipes.len() ==> moved(
                a.pipes[i],
                #[trigger] c.pipes[i],
                gs[i],
                clamp_size(cols),
                clamp_size(rows),
            ),
        c.pipes.len() == a.pipes.len(),
{
}

} // verus!
