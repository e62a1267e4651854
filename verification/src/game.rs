//! The board of a single game: cells, turn, scores and winner.

use vstd::prelude::*;
use crate::line::{
    cells, completes_line, direction, find_win, first_win, full, is_full, is_square_grid, lemma_first_win_from,
    lemma_run_is_streak, lemma_win_iff_line, line_ends, marked_at, on_board, run, shift, window,
};

verus! {

/// What a cell of the board, or the winner slot, holds.
///
/// `Draw` only ever stands in the winner slot, for a board that filled up
/// without a line; it is never placed on the board.
#[derive(Clone, Copy, PartialEq, Eq, Debug, Structural)]
pub enum Square {
    Empty,
    PlayerX,
    PlayerO,
    Draw,
}

impl Square {
    /// One of the two player marks.
    pub open spec fn is_player(self) -> bool {
        self == Square::PlayerX || self == Square::PlayerO
    }

    /// The mark of the player who moves after `self`: `PlayerO` after
    /// `PlayerX`, and `PlayerX` after anything else.
    pub open spec fn spec_opponent(self) -> Square {
        if self == Square::PlayerX {
            Square::PlayerO
        } else {
            Square::PlayerX
        }
    }

    /// The mark of the player who moves after `self`.
    #[verifier::when_used_as_spec(spec_opponent)]
    pub fn opponent(self) -> (other: Square)
        ensures
            other == self.spec_opponent(),
    {
        match self {
            Square::PlayerX => Square::PlayerO,
            _ => Square::PlayerX,
        }
    }
}

/// The outcome of a game: who won, and the two outermost cells
/// `(x1, y1)` and `(x2, y2)` of the winning line.
///
/// `player` is `Empty` while the game is in progress and `Draw` when the
/// board filled up without a line.
#[derive(Clone, Copy, PartialEq, Eq, Debug, Structural)]
pub struct Winner {
    pub player: Square,
    pub x1: usize,
    pub y1: usize,
    pub x2: usize,
    pub y2: usize,
}

impl Winner {
    /// The outcome of a game that is still in progress.
    pub open spec fn spec_nobody() -> Winner {
        Winner { player: Square::Empty, x1: 0, y1: 0, x2: 0, y2: 0 }
    }

    /// The outcome of a game that is still in progress.
    #[verifier::when_used_as_spec(spec_nobody)]
    pub fn nobody() -> (w: Winner)
        ensures
            w == Winner::spec_nobody(),
    {
        Winner { player: Square::Empty, x1: 0, y1: 0, x2: 0, y2: 0 }
    }

    /// `mark` has won with the line whose outermost cells are `ends`.
    pub open spec fn with_line(mark: Square, ends: (int, int, int, int)) -> Winner {
        Winner { player: mark, x1: ends.0 as usize, y1: ends.1 as usize, x2: ends.2 as usize, y2: ends.3 as usize }
    }

    /// The same outcome, declared a draw.
    pub open spec fn drawn(self) -> Winner {
        Winner { player: Square::Draw, x1: self.x1, y1: self.y1, x2: self.x2, y2: self.y2 }
    }
}

/// What the line above the board says.
#[derive(Clone, Copy, PartialEq, Eq, Debug, Structural)]
pub enum Banner {
    /// The game is in progress: the scores of `PlayerX` and of `PlayerO`,
    /// and who is to move.
    Turn { score_x: u8, score_o: u8, turn: Square },
    /// The board filled up without a line.
    Draw,
    /// The given player has won.
    Won(Square),
}

/// A board of `n` by `n` empty cells.
pub open spec fn empty_board(n: nat) -> Seq<Seq<Square>> {
    Seq::new(n, |x: int| Seq::new(n, |y: int| Square::Empty))
}

/// A counter after one more win; it stays at its maximum once it is there.
pub open spec fn bump(score: u8) -> u8 {
    if score < u8::MAX {
        (score + 1) as u8
    } else {
        score
    }
}

/// The scores after a win of `mark`: the first counter is `PlayerX`'s.
pub open spec fn credit(scores: (u8, u8), mark: Square) -> (u8, u8) {
    if mark == Square::PlayerX {
        (bump(scores.0), scores.1)
    } else {
        (scores.0, bump(scores.1))
    }
}

/// The mathematical state of a game.
#[verifier::ext_equal]
pub struct GameView {
    /// `board[x][y]` is the cell in column `x`, row `y`.
    pub board: Seq<Seq<Square>>,
    /// Wins so far of `PlayerX` and of `PlayerO`.
    pub scores: (u8, u8),
    pub winner: Winner,
    /// Who moves next.
    pub turn: Square,
    /// How many marks in a line win.
    pub win_len: nat,
}

impl GameView {
    /// The width and height of the board.
    pub open spec fn size(self) -> nat {
        self.board.len()
    }

    /// A game before the first move on a board of `n` by `n` cells, won by
    /// `t` in a line.
    pub open spec fn fresh(n: nat, t: nat) -> GameView {
        GameView {
            board: empty_board(n),
            scores: (0, 0),
            winner: Winner::nobody(),
            turn: Square::PlayerX,
            win_len: t,
        }
    }

    /// The board is square and at least 3 wide, holds only player marks and
    /// empty cells, a player is to move, and the winning length fits the board.
    pub open spec fn wf(self) -> bool {
        &&& 3 <= self.board.len() <= usize::MAX
        &&& is_square_grid(self.board)
        &&& forall|x: int, y: int| on_board(self.board, x, y) ==> #[trigger] self.board[x][y] != Square::Draw
        &&& self.turn.is_player()
        &&& 1 <= self.win_len <= self.board.len()
    }

    /// What the line above the board says about the game.
    pub open spec fn banner(self) -> Banner {
        if self.winner.player == Square::Empty {
            Banner::Turn { score_x: self.scores.0, score_o: self.scores.1, turn: self.turn }
        } else if self.winner.player == Square::Draw {
            Banner::Draw
        } else {
            Banner::Won(self.winner.player)
        }
    }

    /// A move at `(x, y)` counts: the cell is empty and the game undecided.
    pub open spec fn legal(self, x: int, y: int) -> bool {
        self.board[x][y] == Square::Empty && self.winner.player == Square::Empty
    }

    /// The board with the mark of the player to move at `(x, y)`.
    pub open spec fn placed(self, x: int, y: int) -> Seq<Seq<Square>> {
        self.board.update(x, self.board[x].update(y, self.turn))
    }

    /// The game after the player to move hits `(x, y)`.
    ///
    /// A hit on an occupied cell or in a decided game changes nothing.
    /// Otherwise the mark is placed and the turn passes on. If the mark
    /// completes a line, the first such line in ascending order of direction
    /// is recorded and the player's score goes up; if not and the board is
    /// now full, the game is a draw.
    pub open spec fn hit(self, x: int, y: int) -> GameView {
        if !self.legal(x, y) {
            self
        } else {
            match first_win(self.board, x, y, self.turn, self.win_len) {
                Some(k) => GameView {
                    board: self.placed(x, y),
                    scores: credit(self.scores, self.turn),
                    winner: Winner::with_line(
                        self.turn,
                        line_ends(self.board, x, y, direction(k).0, direction(k).1, self.turn),
                    ),
                    turn: self.turn.opponent(),
                    win_len: self.win_len,
                },
                None => GameView {
                    board: self.placed(x, y),
                    scores: self.scores,
                    winner: if is_full(self.placed(x, y)) {
                        self.winner.drawn()
                    } else {
                        self.winner
                    },
                    turn: self.turn.opponent(),
                    win_len: self.win_len,
                },
            }
        }
    }

    /// The game after a rematch: an empty board of the same size, nobody has
    /// won, `PlayerX` moves, the scores stay.
    pub open spec fn rematch(self) -> GameView {
        GameView {
            board: empty_board(self.size()),
            scores: self.scores,
            winner: Winner::nobody(),
            turn: Square::PlayerX,
            win_len: self.win_len,
        }
    }

    /// The game after a restart: a rematch with both scores back at zero.
    pub open spec fn restart(self) -> GameView {
        GameView { scores: (0, 0), ..self.rematch() }
    }

    /// The game on an empty board of `n` by `n` cells, for `n` of at least 3;
    /// a winning length that no longer fits becomes `n`. A smaller `n`
    /// changes nothing.
    pub open spec fn set_size(self, n: nat) -> GameView {
        if n > 2 {
            GameView {
                board: empty_board(n),
                win_len: if self.win_len <= n {
                    self.win_len
                } else {
                    n
                },
                ..self
            }
        } else {
            self
        }
    }
}

/// A single game: the board, whose turn it is, the scores and the winner.
pub struct Game {
    board: Vec<Vec<Square>>,
    scores: (u8, u8),
    winner: Winner,
    turn: Square,
    win_len: usize,
}

impl View for Game {
    type V = GameView;

    closed spec fn view(&self) -> GameView {
        GameView {
            board: cells(&self.board),
            scores: self.scores,
            winner: self.winner,
            turn: self.turn,
            win_len: self.win_len as nat,
        }
    }
}

/// A board of `n` by `n` empty cells.
fn new_board(n: usize) -> (board: Vec<Vec<Square>>)
    ensures
        cells(&board) == empty_board(n as nat),
{
    let mut board: Vec<Vec<Square>> = Vec::new();
    while board.len() < n
        invariant
            board.len() <= n,
            forall|x: int| 0 <= x < board.len() ==> (#[trigger] board[x])@ == Seq::new(n as nat, |y: int| Square::Empty),
        decreases n - board.len(),
    {
        let mut column: Vec<Square> = Vec::new();
        while column.len() < n
            invariant
                column.len() <= n,
                forall|y: int| 0 <= y < column.len() ==> #[trigger] column[y] == Square::Empty,
            decreases n - column.len(),
        {
            column.push(Square::Empty);
        }
        assert(column@ =~= Seq::new(n as nat, |y: int| Square::Empty));
        board.push(column);
    }
    assert(cells(&board) =~~= empty_board(n as nat));
    board
}

impl Game {
    /// The game is well formed: see [`GameView::wf`].
    pub open spec fn wf(&self) -> bool {
        self@.wf()
    }

    /// A classic game: 3 by 3 cells, three in a line win, `PlayerX` begins.
    pub fn new() -> (game: Game)
        ensures
            game.wf(),
            game@ == GameView::fresh(3, 3),
    {
        Game { board: new_board(3), scores: (0, 0), winner: Winner::nobody(), turn: Square::PlayerX, win_len: 3 }
    }

    /// A game on `size` by `size` cells in which `win_len` marks in a line
    /// win, if the board is at least 3 wide and the line fits on it.
    pub fn with_size(size: usize, win_len: usize) -> (game: Option<Game>)
        ensures
            game is Some <==> size >= 3 && 1 <= win_len <= size,
            game matches Some(g) ==> g.wf() && g@ == GameView::fresh(size as nat, win_len as nat),
    {
        if size >= 3 && 1 <= win_len && win_len <= size {
            Some(
                Game {
                    board: new_board(size),
                    scores: (0, 0),
                    winner: Winner::nobody(),
                    turn: Square::PlayerX,
                    win_len,
                },
            )
        } else {
            None
        }
    }

    /// The player to move places a mark at `(x, y)`.
    pub fn hit(&mut self, x: usize, y: usize)
        requires
            old(self).wf(),
            x < old(self)@.size(),
            y < old(self)@.size(),
        ensures
            final(self).wf(),
            final(self)@ == old(self)@.hit(x as int, y as int),
            !old(self)@.legal(x as int, y as int) ==> final(self)@ == old(self)@,
    {
        if self.board[x][y] != Square::Empty || self.winner.player != Square::Empty {
            return ;
        }
        let mark = self.turn;
        let line = find_win(&self.board, x, y, mark, self.win_len);
        self.board[x][y] = mark;
        self.turn = mark.opponent();
        assert(cells(&self.board) =~~= old(self)@.placed(x as int, y as int));
        match line {
            Some(ends) => {
                if mark == Square::PlayerX {
                    self.scores.0 = self.scores.0.saturating_add(1);
                } else {
                    self.scores.1 = self.scores.1.saturating_add(1);
                }
                self.winner = Winner { player: mark, x1: ends.0, y1: ends.1, x2: ends.2, y2: ends.3 };
            },
            None => {
                if full(&self.board) {
                    self.winner.player = Square::Draw;
                }
            },
        }
    }

    /// Clears the board for another round; the scores stay.
    pub fn rematch(&mut self)
        requires
            old(self).wf(),
        ensures
            final(self).wf(),
            final(self)@ == old(self)@.rematch(),
            final(self)@.size() == old(self)@.size(),
            forall|x: int, y: int| on_board(final(self)@.board, x, y) ==> #[trigger] final(self)@.board[x][y] == Square::Empty,
            final(self)@.winner.player == Square::Empty,
            final(self)@.turn == Square::PlayerX,
            final(self)@.scores == old(self)@.scores,
    {
        self.board = new_board(self.board.len());
        self.winner = Winner::nobody();
        self.turn = Square::PlayerX;
    }

    /// Clears the board and both scores.
    pub fn restart(&mut self)
        requires
            old(self).wf(),
        ensures
            final(self).wf(),
            final(self)@ == old(self)@.restart(),
            final(self)@.size() == old(self)@.size(),
            forall|x: int, y: int| on_board(final(self)@.board, x, y) ==> #[trigger] final(self)@.board[x][y] == Square::Empty,
            final(self)@.winner.player == Square::Empty,
            final(self)@.turn == Square::PlayerX,
            final(self)@.scores == (0u8, 0u8),
    {
        self.rematch();
        self.scores = (0, 0);
    }

    /// Replaces the board by an empty one of `num` by `num` cells, if `num`
    /// is at least 3.
    pub fn set_size(&mut self, num: usize)
        requires
            old(self).wf(),
        ensures
            final(self).wf(),
            final(self)@ == old(self)@.set_size(num as nat),
    {
        if num > 2 {
            self.board = new_board(num);
            if self.win_len > num {
                self.win_len = num;
            }
        }
    }

    /// Hands the move to `turn`.
    pub(crate) fn set_turn(&mut self, turn: Square)
        requires
            old(self).wf(),
            turn.is_player(),
        ensures
            final(self).wf(),
            final(self)@ == (GameView { turn, ..old(self)@ }),
    {
        self.turn = turn;
    }

    /// Puts both scores back to zero.
    pub(crate) fn reset_scores(&mut self)
        requires
            old(self).wf(),
        ensures
            final(self).wf(),
            final(self)@ == (GameView { scores: (0, 0), ..old(self)@ }),
    {
        self.scores = (0, 0);
    }

    /// The cells: `board()[x][y]` is the cell in column `x`, row `y`.
    pub fn board(&self) -> (board: &Vec<Vec<Square>>)
        ensures
            cells(board) == self@.board,
    {
        &self.board
    }

    /// The width and height of the board.
    pub fn size(&self) -> (size: usize)
        ensures
            size == self@.size(),
    {
        self.board.len()
    }

    /// How many marks in a line win.
    pub fn win_len(&self) -> (win_len: usize)
        ensures
            win_len == self@.win_len,
    {
        self.win_len
    }

    /// Who moves next.
    pub fn turn(&self) -> (turn: Square)
        ensures
            turn == self@.turn,
    {
        self.turn
    }

    /// Wins so far of `PlayerX` and of `PlayerO`.
    pub fn scores(&self) -> (scores: (u8, u8))
        ensures
            scores == self@.scores,
    {
        self.scores
    }

    /// The outcome so far.
    pub fn winner(&self) -> (winner: Winner)
        ensures
            winner == self@.winner,
    {
        self.winner
    }

    /// What the line above the board says about the game.
    pub fn banner(&self) -> (banner: Banner)
        ensures
            banner == self@.banner(),
    {
        if self.winner.player == Square::Empty {
            Banner::Turn { score_x: self.scores.0, score_o: self.scores.1, turn: self.turn }
        } else if self.winner.player == Square::Draw {
            Banner::Draw
        } else {
            Banner::Won(self.winner.player)
        }
    }
}

/// A legal move makes the mover the winner exactly when it completes a line:
/// when some row, column or diagonal holds `win_len` consecutive cells, the
/// cell of the move among them, of which all others already hold the mover's
/// mark. A move that completes no line leaves the game undecided, or drawn.
pub proof fn lemma_hit_wins_iff_line_completed(g: GameView, x: int, y: int)
    requires
        g.wf(),
        on_board(g.board, x, y),
        g.legal(x, y),
    ensures
        g.hit(x, y).winner.player == g.turn <==> completes_line(g.board, x, y, g.turn, g.win_len),
        g.hit(x, y).winner.player != g.turn ==> g.hit(x, y).winner.player == Square::Empty || g.hit(
            x,
            y,
        ).winner.player == Square::Draw,
{
    lemma_win_iff_line(g.board, x, y, g.turn, g.win_len);
}

/// With `back` cells behind the cell of a legal move and `ahead` cells in
/// front of it, along one direction, that all hold the mover's mark, the
/// move wins as soon as the line they form with it is `win_len` long.
pub proof fn lemma_completing_a_line_wins(g: GameView, x: int, y: int, dx: int, dy: int, back: int, ahead: int)
    requires
        g.wf(),
        on_board(g.board, x, y),
        g.legal(x, y),
        window(g.board, x, y, dx, dy, g.turn, back, ahead),
        back + 1 + ahead >= g.win_len,
    ensures
        g.hit(x, y).winner.player == g.turn,
        g.hit(x, y).scores == credit(g.scores, g.turn),
{
    let t = g.win_len as int;
    let behind = if back <= t - 1 {
        back
    } else {
        t - 1
    };
    let front = t - 1 - behind;
    assert forall|i: int| 1 <= i <= behind implies #[trigger] marked_at(g.board, x, y, -dx, -dy, g.turn, i) by {}
    assert forall|i: int| 1 <= i <= front implies #[trigger] marked_at(g.board, x, y, dx, dy, g.turn, i) by {}
    assert(window(g.board, x, y, dx, dy, g.turn, behind, front));
    lemma_win_iff_line(g.board, x, y, g.turn, g.win_len);
}

/// A game becomes a draw only through a legal move that fills the board
/// without completing a line, and every such move makes it one.
pub proof fn lemma_draw_iff_full_without_line(g: GameView, x: int, y: int)
    requires
        g.wf(),
        on_board(g.board, x, y),
        g.winner.player != Square::Draw,
    ensures
        g.hit(x, y).winner.player == Square::Draw <==> g.legal(x, y) && is_full(g.hit(x, y).board) && !completes_line(
            g.board,
            x,
            y,
            g.turn,
            g.win_len,
        ),
        g.hit(x, y).winner.player == Square::Draw ==> g.hit(x, y).scores == g.scores,
{
    lemma_win_iff_line(g.board, x, y, g.turn, g.win_len);
}

/// The line recorded for the winner of a move runs through the cell of the
/// move along one direction, from the last cell of the run behind it to the
/// last cell of the run in front of it: both ends lie on the board, every
/// cell between them other than the move's own held the mover's mark, the
/// cells beyond them do not, and the line is at least `win_len` long.
pub proof fn lemma_winner_line(g: GameView, x: int, y: int) -> (line: (int, int, int, int))
    requires
        g.wf(),
        on_board(g.board, x, y),
        g.legal(x, y),
        g.hit(x, y).winner.player == g.turn,
    ensures
        window(g.board, x, y, line.0, line.1, g.turn, line.2, line.3),
        line.2 + 1 + line.3 >= g.win_len,
        !marked_at(g.board, x, y, -line.0, -line.1, g.turn, line.2 + 1),
        !marked_at(g.board, x, y, line.0, line.1, g.turn, line.3 + 1),
        g.hit(x, y).winner.x1 == shift(x, -line.0, line.2),
        g.hit(x, y).winner.y1 == shift(y, -line.1, line.2),
        g.hit(x, y).winner.x2 == shift(x, line.0, line.3),
        g.hit(x, y).winner.y2 == shift(y, line.1, line.3),
        on_board(g.board, g.hit(x, y).winner.x1 as int, g.hit(x, y).winner.y1 as int),
        on_board(g.board, g.hit(x, y).winner.x2 as int, g.hit(x, y).winner.y2 as int),
{
    lemma_first_win_from(g.board, x, y, g.turn, g.win_len, 0);
    let k = first_win(g.board, x, y, g.turn, g.win_len).unwrap();
    let (dx, dy) = direction(k);
    let back = run(g.board, x, y, -dx, -dy, g.turn) as int;
    let ahead = run(g.board, x, y, dx, dy, g.turn) as int;
    lemma_run_is_streak(g.board, x, y, -dx, -dy, g.turn);
    lemma_run_is_streak(g.board, x, y, dx, dy, g.turn);
    if back >= 1 {
        assert(marked_at(g.board, x, y, -dx, -dy, g.turn, back));
    }
    if ahead >= 1 {
        assert(marked_at(g.board, x, y, dx, dy, g.turn, ahead));
    }
    (dx, dy, back, ahead)
}

} // verus!
