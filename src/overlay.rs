use vstd::prelude::*;
use vstd::string::StringExecFns;
use vstd::string::StringSliceAdditionalSpecFns;
use vstd::utf8::encode_utf8;

use crate::animation::Command;

verus! {

/// Number of bytes `s` takes in UTF-8.
pub open spec fn byte_len(s: Seq<char>) -> nat {
    encode_utf8(s).len()
}

/// The widest of `lines`, in bytes.
pub open spec fn max_width(lines: Seq<Seq<char>>) -> nat
    decreases lines.len(),
{
    if lines.len() == 0 {
        0
    } else {
        let rest = max_width(lines.drop_last());
        let last = byte_len(lines.last());
        if last > rest {
            last
        } else {
            rest
        }
    }
}

/// What each of `lines` holds.
pub open spec fn line_views(lines: Seq<String>) -> Seq<Seq<char>> {
    lines.map_values(|s: String| s@)
}

pub open spec fn repeat_char(c: char, n: nat) -> Seq<char> {
    Seq::new(n, |_i: int| c)
}

/// The top edge of a box around text `w` bytes wide.
pub open spec fn top_border(w: nat) -> Seq<char> {
    seq!['┏'] + repeat_char('━', w + 2) + seq!['┓']
}

/// The bottom edge of a box around text `w` bytes wide.
pub open spec fn bottom_border(w: nat) -> Seq<char> {
    seq!['┗'] + repeat_char('━', w + 2) + seq!['┛']
}

/// One line of text inside a box `w` bytes wide, padded with spaces.
pub open spec fn box_row(line: Seq<char>, w: nat) -> Seq<char> {
    seq!['┃', ' '] + line + repeat_char(' ', (w - byte_len(line)) as nat) + seq![' ', '┃']
}

pub open spec fn text_is(c: Command, s: Seq<char>) -> bool {
    c is Text && c->Text_0@ == s
}

/// `cmds` draws `lines` in a bordered box whose top left corner is at
/// column `x`, row `y`, in palette color 15.
pub open spec fn box_queued(cmds: Seq<Command>, x: usize, y: usize, lines: Seq<Seq<char>>) -> bool {
    let w = max_width(lines);
    let n = lines.len();
    &&& cmds.len() == 2 * n + 5
    &&& cmds[0] == Command::Foreground(15)
    &&& cmds[1] == (Command::MoveTo { x, y })
    &&& text_is(cmds[2], top_border(w))
    &&& forall|i: int|
        0 <= i < n ==> #[trigger] cmds[3 + 2 * i] == (Command::MoveTo {
            x,
            y: (y + 1 + i) as usize,
        }) && text_is(cmds[4 + 2 * i], box_row(lines[i], w))
    &&& cmds[3 + 2 * n as int] == (Command::MoveTo { x, y: (y + 1 + n) as usize })
    &&& text_is(cmds[4 + 2 * n as int], bottom_border(w))
}

fn push_repeated(s: &mut String, piece: &str, n: usize)
    requires
        piece@.len() == 1,
    ensures
        final(s)@ == old(s)@ + repeat_char(piece@[0], n as nat),
{
    let mut k: usize = 0;
    while k < n
        invariant
            piece@.len() == 1,
            k <= n,
            s@ == old(s)@ + repeat_char(piece@[0], k as nat),
        decreases n - k,
    {
        s.append(piece);
        k = k + 1;
        assert(s@ =~= old(s)@ + repeat_char(piece@[0], k as nat));
    }
}

fn border(left: &str, right: &str, w: usize) -> (r: String)
    requires
        left@.len() == 1,
        right@.len() == 1,
        w + 2 <= usize::MAX,
    ensures
        r@ == seq![left@[0]] + repeat_char('━', (w + 2) as nat) + seq![right@[0]],
{
    proof {
        reveal_strlit("━");
    }
    let mut s = String::from_str(left);
    push_repeated(&mut s, "━", w + 2);
    s.append(right);
    assert(s@ =~= seq![left@[0]] + repeat_char('━', (w + 2) as nat) + seq![right@[0]]);
    s
}

fn row(line: &String, w: usize) -> (r: String)
    requires
        byte_len(line@) <= w,
        w <= usize::MAX,
    ensures
        r@ == box_row(line@, w as nat),
{
    proof {
        reveal_strlit("┃ ");
        reveal_strlit(" ");
        reveal_strlit(" ┃");
    }
    let mut s = String::from_str("┃ ");
    s.append(line.as_str());
    push_repeated(&mut s, " ", w - line.as_str().len());
    s.append(" ┃");
    assert(s@ =~= box_row(line@, w as nat));
    s
}

fn widest(lines: &Vec<String>) -> (r: usize)
    requires
        forall|i: int| 0 <= i < lines.len() ==> byte_len(#[trigger] lines@[i]@) <= usize::MAX,
    ensures
        r == max_width(lines@.map_values(|s: String| s@)),
{
    let ghost v = lines@.map_values(|s: String| s@);
    let mut w: usize = 0;
    let mut i: usize = 0;
    while i < lines.len()
        invariant
            i <= lines.len(),
            v == lines@.map_values(|s: String| s@),
            w == max_width(v.take(i as int)),
            forall|j: int| 0 <= j < lines.len() ==> byte_len(#[trigger] lines@[j]@) <= usize::MAX,
        decreases lines.len() - i,
    {
        let line = lines[i].as_str();
        let n = line.len();
        assert(byte_len(lines@[i as int]@) <= usize::MAX);
        assert(line.spec_bytes() == encode_utf8(line@));
        assert(v[i as int] == lines@[i as int]@);
        assert(n == byte_len(v[i as int]));
        assert(v.take(i + 1).drop_last() =~= v.take(i as int));
        assert(v.take(i + 1).last() == v[i as int]);
        if n > w {
            w = n;
        }
        i = i + 1;
    }
    assert(v.take(lines.len() as int) =~= v);
    w
}

proof fn lemma_max_width_bounds(lines: Seq<Seq<char>>, i: int)
    requires
        0 <= i < lines.len(),
    ensures
        byte_len(lines[i]) <= max_width(lines),
    decreases lines.len(),
{
    if i < lines.len() - 1 {
        lemma_max_width_bounds(lines.drop_last(), i);
    }
}

/// The changes that draw `lines` in a bordered box with its top left corner
/// at `position`: the border is as wide as the widest line, in bytes, plus a
/// space on each side, and shorter lines are padded with spaces.
pub fn box_changes(position: [usize; 2], lines: &Vec<String>) -> (r: Vec<Command>)
    requires
        lines.len() > 0,
        position[1] + lines.len() + 1 <= usize::MAX,
        forall|i: int| 0 <= i < lines.len() ==> byte_len(#[trigger] lines@[i]@) + 2 <= usize::MAX,
    ensures
        box_queued(r@, position[0], position[1], line_views(lines@)),
{
    let ghost v = lines@.map_values(|s: String| s@);
    let w = widest(lines);
    assert(w + 2 <= usize::MAX) by {
        lemma_max_width_reached(v);
        let k = choose|k: int| 0 <= k < v.len() && byte_len(#[trigger] v[k]) == max_width(v);
        assert(v[k] == lines@[k]@);
    }
    proof {
        reveal_strlit("┏");
        reveal_strlit("┓");
        reveal_strlit("┗");
        reveal_strlit("┛");
    }
    let x = position[0];
    let y = position[1];
    let mut changes: Vec<Command> = Vec::new();
    changes.push(Command::Foreground(15));
    changes.push(Command::MoveTo { x, y });
    changes.push(Command::Text(border("┏", "┓", w)));
    let mut i: usize = 0;
    while i < lines.len()
        invariant
            i <= lines.len(),
            v == lines@.map_values(|s: String| s@),
            w == max_width(v),
            y + lines.len() + 1 <= usize::MAX,
            changes@.len() == 3 + 2 * i,
            changes@[0] == Command::Foreground(15),
            changes@[1] == (Command::MoveTo { x, y }),
            text_is(changes@[2], top_border(w as nat)),
            forall|j: int|
                0 <= j < i ==> #[trigger] changes@[3 + 2 * j] == (Command::MoveTo {
                    x,
                    y: (y + 1 + j) as usize,
                }) && text_is(changes@[4 + 2 * j], box_row(v[j], w as nat)),
        decreases lines.len() - i,
    {
        proof {
            lemma_max_width_bounds(v, i as int);
        }
        changes.push(Command::MoveTo { x, y: y + i + 1 });
        changes.push(Command::Text(row(&lines[i], w)));
        i = i + 1;
    }
    changes.push(Command::MoveTo { x, y: y + 1 + lines.len() });
    changes.push(Command::Text(border("┗", "┛", w)));
    changes
}

proof fn lemma_max_width_reached(lines: Seq<Seq<char>>)
    requires
        lines.len() > 0,
    ensures
        exists|k: int| 0 <= k < lines.len() && byte_len(#[trigger] lines[k]) == max_width(lines),
    decreases lines.len(),
{
    if lines.len() > 1 {
        lemma_max_width_reached(lines.drop_last());
        let k = choose|k: int|
            0 <= k < lines.drop_last().len() && byte_len(#[trigger] lines.drop_last()[k])
                == max_width(lines.drop_last());
        assert(lines.drop_last()[k] == lines[k]);
        if byte_len(lines.last()) > max_width(lines.drop_last()) {
            assert(byte_len(lines[lines.len() - 1]) == max_width(lines));
        }
    } else {
        assert(lines.drop_last().len() == 0);
        assert(max_width(lines.drop_last()) == 0);
        assert(byte_len(lines[0]) == max_width(lines));
    }
}

} // verus!
