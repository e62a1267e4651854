//! A game with a cursor: the board component that the screens show and
//! steer by keys.

use vstd::prelude::*;
use crate::action::Action;
use crate::event::{KeyCode, KeyEvent};
use crate::line::cells;
pub use crate::game::{Square, Winner};

verus! {

/// The middle of a board of `n` cells a side.
pub open spec fn centre(n: nat) -> nat {
    n / 2
}

/// The coordinate after `v` on a board of `n` cells a side; the last one stays.
pub open spec fn forward(v: nat, n: nat) -> nat {
    if v + 1 < n {
        v + 1
    } else {
        v
    }
}

/// The coordinate before `v`; the first one stays.
pub open spec fn backward(v: nat) -> nat {
    if v > 0 {
        (v - 1) as nat
    } else {
        v
    }
}

/// The mathematical state of a [`Game`].
#[verifier::ext_equal]
pub struct GameView {
    /// Board, turn, scores and winner.
    pub game: crate::game::GameView,
    /// The cell `(x, y)` under the cursor.
    pub selected: (nat, nat),
    /// Whether the cursor is shown.
    pub show_selector: bool,
}

impl GameView {
    /// A game before the first move on a board of `n` by `n` cells, won by
    /// `t` in a line, with the cursor shown in the middle.
    pub open spec fn fresh(n: nat, t: nat) -> GameView {
        GameView { game: crate::game::GameView::fresh(n, t), selected: (centre(n), centre(n)), show_selector: true }
    }

    /// The game is well formed and the cursor is on the board.
    pub open spec fn wf(self) -> bool {
        &&& self.game.wf()
        &&& self.selected.0 < self.game.size()
        &&& self.selected.1 < self.game.size()
    }

    /// The game after a hit at the cursor. A hit that counts puts the cursor
    /// back to the middle, and hides it if the hit has won the game.
    pub open spec fn hit(self) -> GameView {
        let (x, y) = self.selected;
        if !self.game.legal(x as int, y as int) {
            self
        } else {
            let game = self.game.hit(x as int, y as int);
            GameView {
                game,
                selected: (centre(self.game.size()), centre(self.game.size())),
                show_selector: if game.winner.player == self.game.turn {
                    false
                } else {
                    self.show_selector
                },
            }
        }
    }

    /// The game after a rematch: see [`crate::game::GameView::rematch`]. The
    /// cursor is shown in the middle.
    pub open spec fn rematch(self) -> GameView {
        GameView {
            game: self.game.rematch(),
            selected: (centre(self.game.size()), centre(self.game.size())),
            show_selector: true,
        }
    }

    /// The game after a restart: a rematch with both scores back at zero.
    pub open spec fn restart(self) -> GameView {
        GameView { game: self.game.restart(), ..self.rematch() }
    }

    /// The game on an empty board of `n` by `n` cells with the cursor in the
    /// middle, for `n` of at least 3; a smaller `n` changes nothing.
    pub open spec fn set_size(self, n: nat) -> GameView {
        if n > 2 {
            GameView { game: self.game.set_size(n), selected: (centre(n), centre(n)), ..self }
        } else {
            self
        }
    }

    /// The game after the key of `key_event`: up, down, left and right move
    /// the cursor by one cell, up towards larger `y`, and stop at the edge of
    /// the board; Enter hits the cell under the cursor.
    pub open spec fn on_key(self, key_event: KeyEvent) -> GameView {
        let (x, y) = self.selected;
        let n = self.game.size();
        if key_event.code.is_up() {
            GameView { selected: (x, forward(y, n)), ..self }
        } else if key_event.code.is_down() {
            GameView { selected: (x, backward(y)), ..self }
        } else if key_event.code.is_right() {
            GameView { selected: (forward(x, n), y), ..self }
        } else if key_event.code.is_left() {
            GameView { selected: (backward(x), y), ..self }
        } else if key_event.code == KeyCode::Enter {
            self.hit()
        } else {
            self
        }
    }
}

/// A game with a cursor that selects the cell of the next move.
pub struct Game {
    game: crate::game::Game,
    selected: (usize, usize),
    show_selector: bool,
}

impl View for Game {
    type V = GameView;

    closed spec fn view(&self) -> GameView {
        GameView {
            game: self.game@,
            selected: (self.selected.0 as nat, self.selected.1 as nat),
            show_selector: self.show_selector,
        }
    }
}

impl Game {
    /// The game is well formed: see [`GameView::wf`].
    pub open spec fn wf(&self) -> bool {
        self@.wf()
    }

    /// A classic game of 3 by 3 cells with the cursor shown in the middle.
    pub fn new() -> (game: Game)
        ensures
            game.wf(),
            game@ == GameView::fresh(3, 3),
    {
        Game { game: crate::game::Game::new(), selected: (1, 1), show_selector: true }
    }

    /// The player to move places a mark at the cursor.
    pub fn hit(&mut self)
        requires
            old(self).wf(),
        ensures
            final(self).wf(),
            final(self)@ == old(self)@.hit(),
            !old(self)@.game.legal(old(self)@.selected.0 as int, old(self)@.selected.1 as int) ==> final(self)@ == old(
                self,
            )@,
    {
        let (x, y) = self.selected;
        if self.game.board()[x][y] != Square::Empty || self.game.winner().player != Square::Empty {
            return ;
        }
        let mover = self.game.turn();
        self.game.hit(x, y);
        if self.game.winner().player == mover {
            self.show_selector = false;
        }
        let middle = self.game.size() / 2;
        self.selected = (middle, middle);
    }

    /// Clears the board for another round; the scores stay.
    pub fn rematch(&mut self)
        requires
            old(self).wf(),
        ensures
            final(self).wf(),
            final(self)@ == old(self)@.rematch(),
            final(self)@.game.board == crate::game::empty_board(old(self)@.game.size()),
            final(self)@.game.winner.player == Square::Empty,
            final(self)@.game.turn == Square::PlayerX,
            final(self)@.game.scores == old(self)@.game.scores,
    {
        self.game.rematch();
        self.show_selector = true;
        let middle = self.game.size() / 2;
        self.selected = (middle, middle);
    }

    /// Clears the board and both scores.
    pub fn restart(&mut self)
        requires
            old(self).wf(),
        ensures
            final(self).wf(),
            final(self)@ == old(self)@.restart(),
            final(self)@.game.board == crate::game::empty_board(old(self)@.game.size()),
            final(self)@.game.winner.player == Square::Empty,
            final(self)@.game.turn == Square::PlayerX,
            final(self)@.game.scores == (0u8, 0u8),
    {
        self.rematch();
        self.game.reset_scores();
    }

    /// Replaces the board by an empty one of `num` by `num` cells and puts
    /// the cursor in its middle, if `num` is at least 3.
    pub fn set_size(&mut self, num: usize)
        requires
            old(self).wf(),
        ensures
            final(self).wf(),
            final(self)@ == old(self)@.set_size(num as nat),
    {
        if num > 2 {
            self.game.set_size(num);
            self.selected = (num / 2, num / 2);
        }
    }

    /// Reacts to a key: moves the cursor or hits the cell under it.
    pub fn handle_key_event(&mut self, key_event: KeyEvent) -> (action: Action)
        requires
            old(self).wf(),
        ensures
            final(self).wf(),
            final(self)@ == old(self)@.on_key(key_event),
            action is Continue,
    {
        let n = self.game.size();
        if key_event.code.is_up() {
            if self.selected.1 + 1 < n {
                self.selected.1 = self.selected.1 + 1;
            }
        } else if key_event.code.is_down() {
            if self.selected.1 > 0 {
                self.selected.1 = self.selected.1 - 1;
            }
        } else if key_event.code.is_right() {
            if self.selected.0 + 1 < n {
                self.selected.0 = self.selected.0 + 1;
            }
        } else if key_event.code.is_left() {
            if self.selected.0 > 0 {
                self.selected.0 = self.selected.0 - 1;
            }
        } else if key_event.code == KeyCode::Enter {
            self.hit();
        }
        Action::Continue
    }

    /// Hands the move to `turn`.
    pub(crate) fn set_turn(&mut self, turn: Square)
        requires
            old(self).wf(),
            turn.is_player(),
        ensures
            final(self).wf(),
            final(self)@ == (GameView { game: crate::game::GameView { turn, ..old(self)@.game }, ..old(self)@ }),
    {
        self.game.set_turn(turn);
    }

    /// Puts both scores back to zero.
    pub(crate) fn reset_scores(&mut self)
        requires
            old(self).wf(),
        ensures
            final(self).wf(),
            final(self)@ == (GameView { game: crate::game::GameView { scores: (0, 0), ..old(self)@.game }, ..old(self)@ }),
    {
        self.game.reset_scores();
    }

    /// Shows or hides the cursor.
    pub(crate) fn set_show_selector(&mut self, show: bool)
        ensures
            final(self)@ == (GameView { show_selector: show, ..old(self)@ }),
    {
        self.show_selector = show;
    }

    /// Puts the cursor on `(x, y)`.
    pub(crate) fn set_selected(&mut self, x: usize, y: usize)
        ensures
            final(self)@ == (GameView { selected: (x as nat, y as nat), ..old(self)@ }),
    {
        self.selected = (x, y);
    }

    /// Board, turn, scores and winner.
    pub fn game(&self) -> (game: &crate::game::Game)
        ensures
            game@ == self@.game,
    {
        &self.game
    }

    /// The cells: `board()[x][y]` is the cell in column `x`, row `y`.
    pub fn board(&self) -> (board: &Vec<Vec<Square>>)
        ensures
            cells(board) == self@.game.board,
    {
        self.game.board()
    }

    /// The width and height of the board.
    pub fn size(&self) -> (size: usize)
        ensures
            size == self@.game.size(),
    {
        self.game.size()
    }

    /// Who moves next.
    pub fn turn(&self) -> (turn: Square)
        ensures
            turn == self@.game.turn,
    {
        self.game.turn()
    }

    /// Wins so far of `PlayerX` and of `PlayerO`.
    pub fn scores(&self) -> (scores: (u8, u8))
        ensures
            scores == self@.game.scores,
    {
        self.game.scores()
    }

    /// The outcome so far.
    pub fn winner(&self) -> (winner: Winner)
        ensures
            winner == self@.game.winner,
    {
        self.game.winner()
    }

    /// The cell `(x, y)` under the cursor.
    pub fn selected(&self) -> (selected: (usize, usize))
        ensures
            selected.0 == self@.selected.0,
            selected.1 == self@.selected.1,
    {
        self.selected
    }

    /// Whether the cursor is shown.
    pub fn show_selector(&self) -> (show: bool)
        ensures
            show == self@.show_selector,
    {
        self.show_selector
    }
}

} // verus!
