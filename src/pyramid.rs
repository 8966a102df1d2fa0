//! The two-sided staircase: one row per unit of height, each row a run of
//! blanks, a run of bricks, a fixed gap and the mirrored run of bricks.

use vstd::prelude::*;
use vstd::string::StringExecFns;

verus! {

/// `n` copies of `c`.
pub open spec fn run(n: nat, c: char) -> Seq<char> {
    Seq::new(n, |_i: int| c)
}

/// Row `row` (from the top, counting from 0) of a staircase `height` rows
/// high: `height - row - 1` blanks, `row + 1` bricks, a two-blank gap and
/// `row + 1` bricks more.
pub open spec fn pyramid_row(height: nat, row: nat) -> Seq<char>
    recommends
        row < height,
{
    run((height - row - 1) as nat, ' ') + run(row + 1, '#') + seq![' ', ' '] + run(row + 1, '#')
}

/// Appends `n` copies of the one character of `piece` to `line`.
fn append_run(line: &mut String, piece: &str, n: usize)
    requires
        piece@.len() == 1,
    ensures
        final(line)@ == old(line)@ + run(n as nat, piece@[0]),
{
    let ghost start = line@;
    let mut i: usize = 0;
    while i < n
        invariant
            i <= n,
            piece@.len() == 1,
            line@ == start + run(i as nat, piece@[0]),
        decreases n - i,
    {
        line.append(piece);
        i = i + 1;
        assert(line@ =~= start + run(i as nat, piece@[0]));
    }
}

/// The text of row `row` of a staircase `height` rows high.
pub fn pyramid_row_text(height: usize, row: usize) -> (text: String)
    requires
        row < height,
    ensures
        text@ == pyramid_row(height as nat, row as nat),
{
    proof {
        reveal_strlit(" ");
        reveal_strlit("#");
        reveal_strlit("  ");
    }
    let bricks: usize = row + 1;
    let mut text = String::new();
    append_run(&mut text, " ", height - row - 1);
    append_run(&mut text, "#", bricks);
    text.append("  ");
    append_run(&mut text, "#", bricks);
    assert(text@ =~= pyramid_row(height as nat, row as nat));
    text
}

/// The rows of a staircase `height` rows high, from the top down.
pub fn render_pyramid(height: usize) -> (rows: Vec<String>)
    ensures
        rows.len() == height,
        forall|r: int| 0 <= r < height ==> (#[trigger] rows[r])@ == pyramid_row(height as nat, r as nat),
{
    let mut rows: Vec<String> = Vec::new();
    let mut row: usize = 0;
    while row < height
        invariant
            row <= height,
            rows.len() == row,
            forall|r: int| 0 <= r < row ==> (#[trigger] rows[r])@ == pyramid_row(height as nat, r as nat),
        decreases height - row,
    {
        rows.push(pyramid_row_text(height, row));
        row = row + 1;
    }
    rows
}

} // verus!
