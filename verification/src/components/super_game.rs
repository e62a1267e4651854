//! The nested game: a grid of games whose outcomes are the marks on a
//! meta-board, and the rule that sends the next move to the game whose place
//! in the grid matches the cell just played.

use vstd::prelude::*;
use crate::action::Action;
use crate::components::game::{centre, Game, GameView, Square};
use crate::event::{KeyCode, KeyEvent};
use crate::game::lemma_completing_a_line_wins;
use crate::line::window;

verus! {

/// The states of a grid of games: `views(games)[i][j]` is the state of the
/// game in column `i`, row `j`.
pub open spec fn views(games: &Vec<Vec<Game>>) -> Seq<Seq<GameView>> {
    Seq::new(games.len() as nat, |i: int| Seq::new(games[i].len() as nat, |j: int| games[i][j]@))
}

/// The grid `games` with `game` at `(i, j)`.
pub open spec fn put(games: Seq<Seq<GameView>>, i: int, j: int, game: GameView) -> Seq<Seq<GameView>> {
    games.update(i, games[i].update(j, game))
}

/// `game` with `turn` to move.
pub open spec fn with_turn(game: GameView, turn: Square) -> GameView {
    GameView { game: crate::game::GameView { turn, ..game.game }, ..game }
}

/// `game` with the cursor shown or hidden.
pub open spec fn with_selector(game: GameView, show: bool) -> GameView {
    GameView { show_selector: show, ..game }
}

/// A sub-game that nobody plays in yet: empty, `n` cells a side, three in a
/// line win, the cursor hidden.
pub open spec fn idle(n: nat) -> GameView {
    with_selector(GameView::fresh(n, 3), false)
}

/// A grid of `n` by `n` idle sub-games.
pub open spec fn idle_games(n: nat) -> Seq<Seq<GameView>> {
    Seq::new(n, |i: int| Seq::new(n, |j: int| idle(n)))
}

/// The mathematical state of a [`SuperGame`].
#[verifier::ext_equal]
pub struct SuperGameView {
    /// The meta-board: its cell `(i, j)` stands for the outcome of the
    /// sub-game `(i, j)`, and its cursor is on the sub-game that is played
    /// in or about to be chosen.
    pub managing_game: GameView,
    /// The sub-games.
    pub games: Seq<Seq<GameView>>,
    /// The player is choosing the sub-game to play in.
    pub selecting_game: bool,
}

impl SuperGameView {
    /// The width and height of the grid of sub-games and of each of them.
    pub open spec fn size(self) -> nat {
        self.managing_game.game.size()
    }

    /// `(i, j)` is the place of a sub-game.
    pub open spec fn on_grid(self, i: int, j: int) -> bool {
        0 <= i < self.size() && 0 <= j < self.size()
    }

    /// The sub-game under the cursor of the meta-board.
    pub open spec fn active(self) -> GameView {
        self.games[self.managing_game.selected.0 as int][self.managing_game.selected.1 as int]
    }

    /// The meta-board and all sub-games are well formed and of one size. At
    /// most one sub-game shows its cursor: none while a sub-game is being
    /// chosen, and else only the one under the cursor of the meta-board. A
    /// mark on the meta-board stands only where the sub-game is decided.
    pub open spec fn wf(self) -> bool {
        &&& self.managing_game.wf()
        &&& self.games.len() == self.size()
        &&& forall|i: int| 0 <= i < self.size() ==> (#[trigger] self.games[i]).len() == self.size()
        &&& forall|i: int, j: int|
            self.on_grid(i, j) ==> (#[trigger] self.games[i][j]).wf() && self.games[i][j].game.size() == self.size()
        &&& forall|i: int, j: int|
            self.on_grid(i, j) && (#[trigger] self.games[i][j]).show_selector ==> !self.selecting_game && (
            i as nat,
            j as nat,
        ) == self.managing_game.selected
        &&& forall|i: int, j: int|
            self.on_grid(i, j) && self.managing_game.game.board[i][j] != Square::Empty ==> (
            #[trigger] self.games[i][j]).game.winner.player != Square::Empty
    }

    /// While a sub-game is active, it and the meta-board agree on who moves.
    pub open spec fn in_step(self) -> bool {
        !self.selecting_game ==> self.active().game.turn == self.managing_game.game.turn
    }

    /// A nested game before the first move: 3 by 3 classic sub-games, and the
    /// player chooses where to begin.
    pub open spec fn fresh() -> SuperGameView {
        SuperGameView { managing_game: GameView::fresh(3, 3), games: idle_games(3), selecting_game: true }
    }

    /// The nested game after a rematch: all sub-games idle again, the
    /// meta-board cleared with its scores kept, and the player chooses where
    /// to begin.
    pub open spec fn rematch(self) -> SuperGameView {
        SuperGameView {
            managing_game: self.managing_game.rematch(),
            games: idle_games(self.size()),
            selecting_game: true,
        }
    }

    /// The nested game after a restart: a rematch with the scores cleared.
    pub open spec fn restart(self) -> SuperGameView {
        SuperGameView { managing_game: self.managing_game.restart(), ..self.rematch() }
    }

    /// The nested game with `n` by `n` idle sub-games of `n` by `n` cells and
    /// an empty meta-board of that size, for `n` of at least 3; a smaller `n`
    /// changes nothing.
    pub open spec fn set_size(self, n: nat) -> SuperGameView {
        if n > 2 {
            SuperGameView { managing_game: self.managing_game.set_size(n), games: idle_games(n), ..self }
        } else {
            self
        }
    }

    /// The player confirms the sub-game under the cursor of the meta-board.
    /// If it is undecided, play goes on in it: it shows its cursor and takes
    /// over the turn, and the meta-board hides its own. A decided sub-game
    /// cannot be chosen.
    pub open spec fn choose_game(self) -> SuperGameView {
        let (i, j) = self.managing_game.selected;
        if self.active().game.winner.player == Square::Empty {
            SuperGameView {
                managing_game: with_selector(self.managing_game, false),
                games: put(
                    self.games,
                    i as int,
                    j as int,
                    with_turn(with_selector(self.active(), true), self.managing_game.game.turn),
                ),
                selecting_game: false,
            }
        } else {
            self
        }
    }

    /// No sub-game shows its cursor.
    pub open spec fn all_hidden(self) -> bool {
        forall|i: int, j: int| self.on_grid(i, j) ==> !(#[trigger] self.games[i][j]).show_selector
    }

    /// The nested game after a move in the active sub-game is settled: if
    /// the move has decided the sub-game, it is entered on the meta-board by
    /// a hit at the sub-game's place; the turn of the meta-board follows the
    /// sub-game, which hides its cursor.
    pub open spec fn settle(self) -> SuperGameView {
        let (i, j) = self.managing_game.selected;
        let entered = if self.active().game.winner.player != Square::Empty {
            self.managing_game.hit()
        } else {
            self.managing_game
        };
        SuperGameView {
            managing_game: with_turn(entered, self.active().game.turn),
            games: put(self.games, i as int, j as int, with_selector(self.active(), false)),
            selecting_game: false,
        }
    }

    /// The nested game after play is sent to the sub-game at `cell`: if it
    /// is undecided, it becomes the active one, shows its cursor and takes
    /// over the turn; if it is decided, the player chooses the next
    /// sub-game, with the cursor of the meta-board shown in the middle.
    pub open spec fn send_to(self, cell: (nat, nat)) -> SuperGameView {
        let next = self.games[cell.0 as int][cell.1 as int];
        if next.game.winner.player != Square::Empty {
            SuperGameView {
                managing_game: GameView {
                    selected: (centre(self.size()), centre(self.size())),
                    show_selector: true,
                    ..self.managing_game
                },
                selecting_game: true,
                ..self
            }
        } else {
            SuperGameView {
                managing_game: GameView { selected: cell, ..self.managing_game },
                games: put(
                    self.games,
                    cell.0 as int,
                    cell.1 as int,
                    with_turn(with_selector(next, true), self.managing_game.game.turn),
                ),
                selecting_game: false,
            }
        }
    }

    /// The nested game after a move in the active sub-game, made while its
    /// cursor was on `cell`: the move is settled, and play is sent to the
    /// sub-game whose place in the grid is `cell`.
    pub open spec fn route(self, cell: (nat, nat)) -> SuperGameView {
        self.settle().send_to(cell)
    }

    /// The nested game after the active sub-game has handled a key.
    pub open spec fn forward_key(self, key_event: KeyEvent) -> SuperGameView {
        let (i, j) = self.managing_game.selected;
        SuperGameView { games: put(self.games, i as int, j as int, self.active().on_key(key_event)), ..self }
    }

    /// The nested game after a key that goes to the active sub-game. The
    /// sub-game handles it; if its turn has passed on, a move was made at
    /// the cell its cursor was on, and is routed on.
    pub open spec fn delegate(self, key_event: KeyEvent) -> SuperGameView {
        let forwarded = self.forward_key(key_event);
        if forwarded.active().game.turn != self.active().game.turn {
            forwarded.route(self.active().selected)
        } else {
            forwarded
        }
    }

    /// The nested game after the key of `key_event`.
    ///
    /// While the player chooses a sub-game, Enter confirms the one under the
    /// cursor of the meta-board and every other key goes to the meta-board,
    /// which moves its cursor. While a sub-game is active, every key goes to it.
    pub open spec fn on_key(self, key_event: KeyEvent) -> SuperGameView {
        if self.selecting_game {
            if key_event.code == KeyCode::Enter {
                self.choose_game()
            } else {
                SuperGameView { managing_game: self.managing_game.on_key(key_event), ..self }
            }
        } else {
            self.delegate(key_event)
        }
    }
}

/// A nested game: a grid of sub-games and the meta-board that records their
/// outcomes.
pub struct SuperGame {
    managing_game: Game,
    games: Vec<Vec<Game>>,
    selecting_game: bool,
}

impl View for SuperGame {
    type V = SuperGameView;

    closed spec fn view(&self) -> SuperGameView {
        SuperGameView {
            managing_game: self.managing_game@,
            games: views(&self.games),
            selecting_game: self.selecting_game,
        }
    }
}

/// A grid of `n` by `n` idle sub-games.
fn new_games(n: usize) -> (games: Vec<Vec<Game>>)
    requires
        n >= 3,
    ensures
        views(&games) == idle_games(n as nat),
{
    let mut games: Vec<Vec<Game>> = Vec::new();
    while games.len() < n
        invariant
            n >= 3,
            games.len() <= n,
            forall|i: int|
                0 <= i < games.len() ==> (#[trigger] games[i]).len() == n && forall|j: int|
                    0 <= j < n ==> (#[trigger] games[i][j])@ == idle(n as nat),
        decreases n - games.len(),
    {
        let mut column: Vec<Game> = Vec::new();
        while column.len() < n
            invariant
                n >= 3,
                column.len() <= n,
                forall|j: int| 0 <= j < column.len() ==> (#[trigger] column[j])@ == idle(n as nat),
            decreases n - column.len(),
        {
            let mut game = Game::new();
            game.set_show_selector(false);
            game.set_size(n);
            column.push(game);
        }
        games.push(column);
    }
    assert(views(&games) =~~= idle_games(n as nat));
    games
}

impl SuperGame {
    /// The nested game is well formed: see [`SuperGameView::wf`].
    pub open spec fn wf(&self) -> bool {
        self@.wf()
    }

    /// A nested game of 3 by 3 classic sub-games.
    pub fn new() -> (game: SuperGame)
        ensures
            game.wf(),
            game@ == SuperGameView::fresh(),
    {
        SuperGame { managing_game: Game::new(), games: new_games(3), selecting_game: true }
    }

    /// Clears the meta-board and every sub-game and clears both scores.
    pub fn restart(&mut self)
        requires
            old(self).wf(),
        ensures
            final(self).wf(),
            final(self)@ == old(self)@.restart(),
    {
        self.rematch();
        self.managing_game.reset_scores();
    }

    /// Clears the meta-board and every sub-game for another round; the
    /// scores of the meta-board stay.
    pub fn rematch(&mut self)
        requires
            old(self).wf(),
        ensures
            final(self).wf(),
            final(self)@ == old(self)@.rematch(),
    {
        self.games = new_games(self.managing_game.size());
        self.managing_game.rematch();
        self.selecting_game = true;
    }

    /// Makes the grid of sub-games, each sub-game and the meta-board `num`
    /// cells a side and empty, if `num` is at least 3.
    pub fn set_size(&mut self, num: usize)
        requires
            old(self).wf(),
        ensures
            final(self).wf(),
            final(self)@ == old(self)@.set_size(num as nat),
    {
        if num > 2 {
            self.managing_game.set_size(num);
            self.games = new_games(num);
        }
    }

    /// Confirms the sub-game under the cursor of the meta-board.
    fn choose_game(&mut self)
        requires
            old(self).wf(),
        ensures
            final(self).wf(),
            final(self)@ == old(self)@.choose_game(),
    {
        let (i, j) = self.managing_game.selected();
        if self.games[i][j].winner().player == Square::Empty {
            let turn = self.managing_game.turn();
            self.selecting_game = false;
            self.managing_game.set_show_selector(false);
            self.games[i][j].set_show_selector(true);
            self.games[i][j].set_turn(turn);
            assert(views(&self.games) =~~= old(self)@.choose_game().games);
        }
    }

    /// Settles a move that was made in the active sub-game.
    fn settle(&mut self)
        requires
            old(self).wf(),
            !old(self)@.selecting_game,
        ensures
            final(self).wf(),
            final(self)@ == old(self)@.settle(),
            final(self)@.all_hidden(),
            final(self)@.size() == old(self)@.size(),
    {
        let (i, j) = self.managing_game.selected();
        let turn = self.games[i][j].turn();
        if self.games[i][j].winner().player != Square::Empty {
            self.managing_game.hit();
        }
        self.managing_game.set_turn(turn);
        self.games[i][j].set_show_selector(false);
        assert(views(&self.games) =~~= old(self)@.settle().games);
    }

    /// Sends play to the sub-game at `cell`.
    fn send_to(&mut self, cell: (usize, usize))
        requires
            old(self).wf(),
            !old(self)@.selecting_game,
            old(self)@.all_hidden(),
            cell.0 < old(self)@.size(),
            cell.1 < old(self)@.size(),
        ensures
            final(self).wf(),
            final(self)@ == old(self)@.send_to((cell.0 as nat, cell.1 as nat)),
    {
        if self.games[cell.0][cell.1].winner().player != Square::Empty {
            let middle = self.managing_game.size() / 2;
            self.selecting_game = true;
            self.managing_game.set_selected(middle, middle);
            self.managing_game.set_show_selector(true);
        } else {
            let turn = self.managing_game.turn();
            self.managing_game.set_selected(cell.0, cell.1);
            self.games[cell.0][cell.1].set_show_selector(true);
            self.games[cell.0][cell.1].set_turn(turn);
            assert(views(&self.games) =~~= old(self)@.send_to((cell.0 as nat, cell.1 as nat)).games);
        }
    }

    /// Routes on a move that was made in the active sub-game while its
    /// cursor was on `cell`.
    fn route(&mut self, cell: (usize, usize))
        requires
            old(self).wf(),
            !old(self)@.selecting_game,
            cell.0 < old(self)@.size(),
            cell.1 < old(self)@.size(),
        ensures
            final(self).wf(),
            final(self)@ == old(self)@.route((cell.0 as nat, cell.1 as nat)),
    {
        self.settle();
        self.send_to(cell);
    }

    /// Hands a key to the active sub-game and routes on the move, if one
    /// was made.
    fn delegate(&mut self, key_event: KeyEvent)
        requires
            old(self).wf(),
            !old(self)@.selecting_game,
        ensures
            final(self).wf(),
            final(self)@ == old(self)@.delegate(key_event),
    {
        let (i, j) = self.managing_game.selected();
        let cell = self.games[i][j].selected();
        let before = self.games[i][j].turn();
        self.games[i][j].handle_key_event(key_event);
        assert(views(&self.games) =~~= old(self)@.forward_key(key_event).games);
        assert(self@ == old(self)@.forward_key(key_event));
        if self.games[i][j].turn() != before {
            self.route(cell);
        }
    }

    /// Reacts to a key: chooses a sub-game, or plays in the active one and
    /// routes the move on.
    pub fn handle_key_event(&mut self, key_event: KeyEvent) -> (action: Action)
        requires
            old(self).wf(),
        ensures
            final(self).wf(),
            final(self)@ == old(self)@.on_key(key_event),
            action is Continue,
    {
        if self.selecting_game {
            if key_event.code == KeyCode::Enter {
                self.choose_game();
            } else {
                self.managing_game.handle_key_event(key_event);
            }
        } else {
            self.delegate(key_event);
        }
        Action::Continue
    }

    /// Shows or hides the cursor of the meta-board.
    pub(crate) fn set_meta_selector(&mut self, show: bool)
        requires
            old(self).wf(),
        ensures
            final(self).wf(),
            final(self)@ == (SuperGameView {
                managing_game: with_selector(old(self)@.managing_game, show),
                ..old(self)@
            }),
    {
        self.managing_game.set_show_selector(show);
    }

    /// The meta-board.
    pub fn managing_game(&self) -> (game: &Game)
        ensures
            game@ == self@.managing_game,
    {
        &self.managing_game
    }

    /// The sub-games: `games()[i][j]` is the one in column `i`, row `j`.
    pub fn games(&self) -> (games: &Vec<Vec<Game>>)
        ensures
            views(games) == self@.games,
    {
        &self.games
    }

    /// Whether the player is choosing the sub-game to play in.
    pub fn selecting_game(&self) -> (selecting: bool)
        ensures
            selecting == self@.selecting_game,
    {
        self.selecting_game
    }
}

/// Every key leaves the active sub-game and the meta-board agreeing on who
/// moves, if they agreed before.
pub proof fn lemma_on_key_stays_in_step(s: SuperGameView, key_event: KeyEvent)
    requires
        s.wf(),
        s.in_step(),
    ensures
        s.on_key(key_event).in_step(),
{
}

/// A move that decides the active sub-game is a hit on the undecided
/// meta-board at the sub-game's place: the meta-board is then what a single
/// game would be after that hit.
pub proof fn lemma_decided_sub_game_hits_meta_board(s: SuperGameView, key_event: KeyEvent)
    requires
        s.wf(),
        s.in_step(),
        !s.selecting_game,
        s.managing_game.game.winner.player == Square::Empty,
        s.active().on_key(key_event).game.turn != s.active().game.turn,
        s.active().on_key(key_event).game.winner.player != Square::Empty,
    ensures
        s.on_key(key_event).managing_game.game == s.managing_game.game.hit(
            s.managing_game.selected.0 as int,
            s.managing_game.selected.1 as int,
        ),
{
    let (i, j) = s.managing_game.selected;
    let forwarded = s.forward_key(key_event);
    assert(forwarded.active() == s.active().on_key(key_event));
    assert(s.active().game.winner.player == Square::Empty);
    assert(s.managing_game.game.board[i as int][j as int] == Square::Empty);
    assert(s.managing_game.game.legal(i as int, j as int));
    assert(forwarded.active().game.turn == s.managing_game.game.turn.opponent());
}

/// Winning sub-games in a line wins the nested game: when the marks of the
/// player to move stand on the meta-board on `back` cells behind and `ahead`
/// cells in front of the active sub-game's place, along one direction, and
/// the line they form with it is as long as the meta-board asks for, a hit
/// that wins the active sub-game makes that player the winner of the
/// undecided meta-game, as the last mark of a line does in a single game.
pub proof fn lemma_line_of_sub_games_wins(
    s: SuperGameView,
    key_event: KeyEvent,
    dx: int,
    dy: int,
    back: int,
    ahead: int,
)
    requires
        s.wf(),
        s.in_step(),
        !s.selecting_game,
        key_event.code == KeyCode::Enter,
        s.active().game.legal(s.active().selected.0 as int, s.active().selected.1 as int),
        s.active().hit().game.winner.player == s.active().game.turn,
        s.managing_game.game.winner.player == Square::Empty,
        window(
            s.managing_game.game.board,
            s.managing_game.selected.0 as int,
            s.managing_game.selected.1 as int,
            dx,
            dy,
            s.active().game.turn,
            back,
            ahead,
        ),
        back + 1 + ahead >= s.managing_game.game.win_len,
    ensures
        s.on_key(key_event).managing_game.game.winner.player == s.active().game.turn,
        s.on_key(key_event).managing_game.game.scores == crate::game::credit(
            s.managing_game.game.scores,
            s.active().game.turn,
        ),
{
    let (i, j) = s.managing_game.selected;
    assert(s.active().on_key(key_event) == s.active().hit());
    assert(s.managing_game.game.board[i as int][j as int] == Square::Empty);
    lemma_decided_sub_game_hits_meta_board(s, key_event);
    lemma_completing_a_line_wins(s.managing_game.game, i as int, j as int, dx, dy, back, ahead);
}

} // verus!
