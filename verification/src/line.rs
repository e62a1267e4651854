//! Runs of equal marks along the rows, columns and diagonals of a square
//! board, and the search for a winning line through a cell.

use vstd::prelude::*;
use crate::game::Square;

verus! {

/// The cells of a board as a grid: `cells(board)[x][y]` is the cell in
/// column `x`, row `y`.
pub open spec fn cells(board: &Vec<Vec<Square>>) -> Seq<Seq<Square>> {
    Seq::new(board.len() as nat, |x: int| board[x]@)
}

/// Every column is as long as the board is wide.
pub open spec fn is_square_grid(b: Seq<Seq<Square>>) -> bool {
    forall|x: int| 0 <= x < b.len() ==> (#[trigger] b[x]).len() == b.len()
}

/// `(x, y)` is a cell of the board.
pub open spec fn on_board(b: Seq<Seq<Square>>, x: int, y: int) -> bool {
    0 <= x < b.len() && 0 <= y < b.len()
}

/// `(x, y)` lies on the board and holds `mark`.
pub open spec fn holds(b: Seq<Seq<Square>>, x: int, y: int, mark: Square) -> bool {
    on_board(b, x, y) && b[x][y] == mark
}

/// One of the eight steps to a neighbouring cell.
pub open spec fn is_direction(dx: int, dy: int) -> bool {
    -1 <= dx <= 1 && -1 <= dy <= 1 && (dx != 0 || dy != 0)
}

/// The coordinate reached from `v` after `k` steps of `d`, for `d` in `{-1, 0, 1}`.
pub open spec fn shift(v: int, d: int, k: int) -> int {
    if d > 0 {
        v + k
    } else if d < 0 {
        v - k
    } else {
        v
    }
}

/// How many steps of `d` a coordinate `v` can take before it leaves `[0, n)`;
/// a coordinate that does not move has `n` of them.
pub open spec fn room(n: int, v: int, d: int) -> int {
    if d > 0 {
        n - 1 - v
    } else if d < 0 {
        v
    } else {
        n
    }
}

/// The number of consecutive cells that hold `mark`, counted from the
/// neighbour of `(x, y)` in direction `(dx, dy)` outwards, up to the first
/// cell that holds something else or the edge of the board.
pub open spec fn run(b: Seq<Seq<Square>>, x: int, y: int, dx: int, dy: int, mark: Square) -> nat
    decreases room(b.len() as int, x, dx) + room(b.len() as int, y, dy),
{
    if is_direction(dx, dy) && holds(b, x + dx, y + dy, mark) {
        1 + run(b, x + dx, y + dy, dx, dy, mark)
    } else {
        0
    }
}

/// The length of the line through `(x, y)` along `(dx, dy)` once `mark` is
/// placed there: the runs on both sides and the cell itself.
pub open spec fn line_len(b: Seq<Seq<Square>>, x: int, y: int, dx: int, dy: int, mark: Square) -> nat {
    run(b, x, y, -dx, -dy, mark) + 1 + run(b, x, y, dx, dy, mark)
}

/// The steps `(dx, dy)` of `{-1, 0, 1}²` in ascending order; index 4 is the
/// step `(0, 0)`, which is no direction.
pub open spec fn direction(k: int) -> (int, int) {
    (k / 3 - 1, k % 3 - 1)
}

/// Placing `mark` at `(x, y)` gives a line of at least `t` along direction `k`.
pub open spec fn wins_along(b: Seq<Seq<Square>>, x: int, y: int, k: int, mark: Square, t: nat) -> bool {
    k != 4 && line_len(b, x, y, direction(k).0, direction(k).1, mark) >= t
}

/// The first direction from index `k` on along which placing `mark` at
/// `(x, y)` wins.
pub open spec fn first_win_from(b: Seq<Seq<Square>>, x: int, y: int, mark: Square, t: nat, k: int) -> Option<int>
    decreases 9 - k,
{
    if k < 0 || k >= 9 {
        None
    } else if wins_along(b, x, y, k, mark, t) {
        Some(k)
    } else {
        first_win_from(b, x, y, mark, t, k + 1)
    }
}

/// The first of the eight directions, in ascending order of `(dx, dy)`, along
/// which placing `mark` at `(x, y)` wins.
pub open spec fn first_win(b: Seq<Seq<Square>>, x: int, y: int, mark: Square, t: nat) -> Option<int> {
    first_win_from(b, x, y, mark, t, 0)
}

/// The two outermost cells `(x1, y1, x2, y2)` of the line through `(x, y)`
/// along `(dx, dy)`: the far end against the direction first.
pub open spec fn line_ends(b: Seq<Seq<Square>>, x: int, y: int, dx: int, dy: int, mark: Square) -> (int, int, int, int) {
    let back = run(b, x, y, -dx, -dy, mark) as int;
    let ahead = run(b, x, y, dx, dy, mark) as int;
    (shift(x, -dx, back), shift(y, -dy, back), shift(x, dx, ahead), shift(y, dy, ahead))
}

/// No cell of the board is empty.
pub open spec fn is_full(b: Seq<Seq<Square>>) -> bool {
    forall|x: int, y: int| on_board(b, x, y) ==> #[trigger] b[x][y] != Square::Empty
}

/// The cell `k` steps from `(x, y)` along `(dx, dy)` lies on the board and
/// holds `mark`.
pub open spec fn marked_at(b: Seq<Seq<Square>>, x: int, y: int, dx: int, dy: int, mark: Square, k: int) -> bool {
    holds(b, shift(x, dx, k), shift(y, dy, k), mark)
}

/// The `k` cells next to `(x, y)` along `(dx, dy)` all hold `mark`.
pub open spec fn streak(b: Seq<Seq<Square>>, x: int, y: int, dx: int, dy: int, mark: Square, k: int) -> bool {
    forall|i: int| 1 <= i <= k ==> #[trigger] marked_at(b, x, y, dx, dy, mark, i)
}

/// Along `(dx, dy)`, the `back` cells behind `(x, y)` and the `ahead` cells
/// in front of it all hold `mark`.
pub open spec fn window(
    b: Seq<Seq<Square>>,
    x: int,
    y: int,
    dx: int,
    dy: int,
    mark: Square,
    back: int,
    ahead: int,
) -> bool {
    &&& is_direction(dx, dy)
    &&& back >= 0
    &&& ahead >= 0
    &&& streak(b, x, y, -dx, -dy, mark, back)
    &&& streak(b, x, y, dx, dy, mark, ahead)
}

/// Some row, column or diagonal has `t` consecutive cells, `(x, y)` among
/// them, of which all but `(x, y)` hold `mark`: placing `mark` at `(x, y)`
/// completes a line of `t`.
pub open spec fn completes_line(b: Seq<Seq<Square>>, x: int, y: int, mark: Square, t: nat) -> bool {
    exists|dx: int, dy: int, back: int, ahead: int| #[trigger]
        window(b, x, y, dx, dy, mark, back, ahead) && back + 1 + ahead == t
}

/// A run is a streak, and the cell after it breaks the streak.
pub proof fn lemma_run_is_streak(b: Seq<Seq<Square>>, x: int, y: int, dx: int, dy: int, mark: Square)
    requires
        is_direction(dx, dy),
    ensures
        streak(b, x, y, dx, dy, mark, run(b, x, y, dx, dy, mark) as int),
        !marked_at(b, x, y, dx, dy, mark, run(b, x, y, dx, dy, mark) as int + 1),
    decreases room(b.len() as int, x, dx) + room(b.len() as int, y, dy),
{
    let r = run(b, x, y, dx, dy, mark) as int;
    if holds(b, x + dx, y + dy, mark) {
        lemma_run_is_streak(b, x + dx, y + dy, dx, dy, mark);
        assert forall|i: int| 1 <= i <= r implies #[trigger] marked_at(b, x, y, dx, dy, mark, i) by {
            if i > 1 {
                assert(marked_at(b, x + dx, y + dy, dx, dy, mark, i - 1));
            }
        }
        assert(!marked_at(b, x + dx, y + dy, dx, dy, mark, r));
    }
}

/// No streak is longer than the run.
pub proof fn lemma_streak_within_run(b: Seq<Seq<Square>>, x: int, y: int, dx: int, dy: int, mark: Square, k: int)
    requires
        is_direction(dx, dy),
        streak(b, x, y, dx, dy, mark, k),
    ensures
        k <= run(b, x, y, dx, dy, mark),
    decreases k,
{
    if k >= 1 {
        assert(marked_at(b, x, y, dx, dy, mark, 1));
        assert forall|i: int| 1 <= i <= k - 1 implies #[trigger] marked_at(b, x + dx, y + dy, dx, dy, mark, i) by {
            assert(marked_at(b, x, y, dx, dy, mark, i + 1));
        }
        lemma_streak_within_run(b, x + dx, y + dy, dx, dy, mark, k - 1);
    }
}

/// What the search from direction `k` on finds: the first direction that
/// wins, and none if no direction from `k` on wins.
pub proof fn lemma_first_win_from(b: Seq<Seq<Square>>, x: int, y: int, mark: Square, t: nat, k: int)
    requires
        0 <= k,
    ensures
        match first_win_from(b, x, y, mark, t, k) {
            Some(j) => k <= j < 9 && wins_along(b, x, y, j, mark, t) && forall|i: int|
                k <= i < j ==> !wins_along(b, x, y, i, mark, t),
            None => forall|i: int| k <= i < 9 ==> !wins_along(b, x, y, i, mark, t),
        },
    decreases 9 - k,
{
    if k < 9 && !wins_along(b, x, y, k, mark, t) {
        lemma_first_win_from(b, x, y, mark, t, k + 1);
    }
}

/// The search finds a winning direction exactly when placing `mark` at
/// `(x, y)` completes a line of `t`.
pub proof fn lemma_win_iff_line(b: Seq<Seq<Square>>, x: int, y: int, mark: Square, t: nat)
    requires
        t >= 1,
    ensures
        first_win(b, x, y, mark, t) is Some <==> completes_line(b, x, y, mark, t),
{
    lemma_first_win_from(b, x, y, mark, t, 0);
    if first_win(b, x, y, mark, t) is Some {
        let k = first_win(b, x, y, mark, t).unwrap();
        let (dx, dy) = direction(k);
        lemma_run_is_streak(b, x, y, dx, dy, mark);
        lemma_run_is_streak(b, x, y, -dx, -dy, mark);
        let behind = run(b, x, y, -dx, -dy, mark) as int;
        let back = if behind <= t - 1 {
            behind
        } else {
            t - 1
        };
        let ahead = t - 1 - back;
        assert forall|i: int| 1 <= i <= back implies #[trigger] marked_at(b, x, y, -dx, -dy, mark, i) by {}
        assert forall|i: int| 1 <= i <= ahead implies #[trigger] marked_at(b, x, y, dx, dy, mark, i) by {}
        assert(window(b, x, y, dx, dy, mark, back, ahead));
    }
    if completes_line(b, x, y, mark, t) {
        let (dx, dy, back, ahead): (int, int, int, int) = choose|dx: int, dy: int, back: int, ahead: int| #[trigger]
            window(b, x, y, dx, dy, mark, back, ahead) && back + 1 + ahead == t;
        lemma_streak_within_run(b, x, y, -dx, -dy, mark, back);
        lemma_streak_within_run(b, x, y, dx, dy, mark, ahead);
        let k = 3 * (dx + 1) + (dy + 1);
        assert(direction(k) == (dx, dy));
        assert(wins_along(b, x, y, k, mark, t));
    }
}

/// A neighbouring coordinate, unless it leaves `[0, n)`.
fn step(v: usize, d: i8, n: usize) -> (r: Option<usize>)
    requires
        v < n,
        -1 <= d <= 1,
    ensures
        r == (if 0 <= v + d < n { Some((v + d) as usize) } else { None::<usize> }),
{
    if d > 0 {
        if v + 1 < n {
            Some(v + 1)
        } else {
            None
        }
    } else if d < 0 {
        if v > 0 {
            Some(v - 1)
        } else {
            None
        }
    } else {
        Some(v)
    }
}

/// Walks from `(x, y)` along `(dx, dy)` over the cells that hold `mark`.
/// Returns how many there are and the last cell reached.
fn scan(board: &Vec<Vec<Square>>, x: usize, y: usize, dx: i8, dy: i8, mark: Square) -> (r: (usize, usize, usize))
    requires
        is_square_grid(cells(board)),
        on_board(cells(board), x as int, y as int),
        is_direction(dx as int, dy as int),
    ensures
        r.0 == run(cells(board), x as int, y as int, dx as int, dy as int, mark),
        r.1 == shift(x as int, dx as int, r.0 as int),
        r.2 == shift(y as int, dy as int, r.0 as int),
        on_board(cells(board), r.1 as int, r.2 as int),
{
    let n = board.len();
    let mut count: usize = 0;
    let mut cx: usize = x;
    let mut cy: usize = y;
    loop
        invariant
            n == board.len(),
            is_square_grid(cells(board)),
            is_direction(dx as int, dy as int),
            on_board(cells(board), cx as int, cy as int),
            cx == shift(x as int, dx as int, count as int),
            cy == shift(y as int, dy as int, count as int),
            run(cells(board), x as int, y as int, dx as int, dy as int, mark) == count + run(
                cells(board),
                cx as int,
                cy as int,
                dx as int,
                dy as int,
                mark,
            ),
        decreases room(n as int, cx as int, dx as int) + room(n as int, cy as int, dy as int),
    {
        let nx = step(cx, dx, n);
        let ny = step(cy, dy, n);
        match (nx, ny) {
            (Some(px), Some(py)) => {
                if board[px][py] == mark {
                    cx = px;
                    cy = py;
                    count = count + 1;
                } else {
                    return (count, cx, cy);
                }
            },
            _ => {
                return (count, cx, cy);
            },
        }
    }
}

/// The step `(dx, dy)` with index `k` among the steps of `{-1, 0, 1}²`, in
/// ascending order.
fn direction_at(k: u8) -> (d: (i8, i8))
    requires
        k < 9,
    ensures
        (d.0 as int, d.1 as int) == direction(k as int),
{
    ((k / 3) as i8 - 1, (k % 3) as i8 - 1)
}

/// Looks for a line of at least `t` through `(x, y)` that placing `mark`
/// there would complete, trying the eight directions in ascending order.
/// Returns the two outermost cells of the first line found.
pub(crate) fn find_win(board: &Vec<Vec<Square>>, x: usize, y: usize, mark: Square, t: usize) -> (r: Option<
    (usize, usize, usize, usize),
>)
    requires
        is_square_grid(cells(board)),
        on_board(cells(board), x as int, y as int),
        t >= 1,
    ensures
        match first_win(cells(board), x as int, y as int, mark, t as nat) {
            Some(k) => r matches Some(ends) && (ends.0 as int, ends.1 as int, ends.2 as int, ends.3 as int)
                == line_ends(cells(board), x as int, y as int, direction(k).0, direction(k).1, mark),
            None => r is None,
        },
{
    let mut k: u8 = 0;
    while k < 9
        invariant
            k <= 9,
            is_square_grid(cells(board)),
            on_board(cells(board), x as int, y as int),
            t >= 1,
            first_win(cells(board), x as int, y as int, mark, t as nat) == first_win_from(
                cells(board),
                x as int,
                y as int,
                mark,
                t as nat,
                k as int,
            ),
        decreases 9 - k,
    {
        if k != 4 {
            let (dx, dy) = direction_at(k);
            let back = scan(board, x, y, -dx, -dy, mark);
            let ahead = scan(board, x, y, dx, dy, mark);
            let won = if back.0 >= t - 1 {
                true
            } else {
                ahead.0 >= t - 1 - back.0
            };
            if won {
                return Some((back.1, back.2, ahead.1, ahead.2));
            }
        }
        k = k + 1;
    }
    None
}

/// Whether no cell of the board is empty.
pub(crate) fn full(board: &Vec<Vec<Square>>) -> (r: bool)
    requires
        is_square_grid(cells(board)),
    ensures
        r == is_full(cells(board)),
{
    let n = board.len();
    let mut x: usize = 0;
    while x < n
        invariant
            n == board.len(),
            x <= n,
            is_square_grid(cells(board)),
            forall|i: int, j: int| 0 <= i < x && 0 <= j < n ==> #[trigger] cells(board)[i][j] != Square::Empty,
        decreases n - x,
    {
        let mut y: usize = 0;
        while y < n
            invariant
                n == board.len(),
                x < n,
                y <= n,
                is_square_grid(cells(board)),
                forall|i: int, j: int| 0 <= i < x && 0 <= j < n ==> #[trigger] cells(board)[i][j] != Square::Empty,
                forall|j: int| 0 <= j < y ==> #[trigger] cells(board)[x as int][j] != Square::Empty,
            decreases n - y,
        {
            if board[x][y] == Square::Empty {
                assert(on_board(cells(board), x as int, y as int));
                return false;
            }
            y = y + 1;
        }
        x = x + 1;
    }
    true
}

} // verus!
