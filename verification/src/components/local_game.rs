//! The classic game as a screen: a 3 by 3 board, a cursor of the screen's
//! own, and the pause menu.

use vstd::prelude::*;
use crate::action::{Action, ActionView};
use crate::components::game::{backward, forward};
use crate::components::game_selection::{GameSelection, GameSelectionView};
use crate::components::menu::{PauseChoice, PauseMenu, PauseMenuView};
use crate::components::{Component, ComponentView};
use crate::event::{KeyCode, KeyEvent, KeyEventKind};
use crate::game::{Game, GameView, Square};

verus! {

/// The mathematical state of a [`LocalGame`].
pub struct LocalGameView {
    pub game: GameView,
    /// The cell `(x, y)` under the cursor.
    pub selected: (nat, nat),
    pub pause: PauseMenuView,
}

impl LocalGameView {
    /// The game is a well-formed game of 3 by 3 cells, the cursor is on the
    /// board, and the pause menu is well formed.
    pub open spec fn wf(self) -> bool {
        &&& self.game.wf()
        &&& self.game.size() == 3
        &&& self.selected.0 < 3
        &&& self.selected.1 < 3
        &&& self.pause.wf()
    }

    /// The screen of a classic game before the first move, with the cursor
    /// in the middle.
    pub open spec fn fresh() -> LocalGameView {
        LocalGameView { game: GameView::fresh(3, 3), selected: (1, 1), pause: PauseMenuView::closed() }
    }

    /// The screen after a key that goes to the shown pause menu.
    ///
    /// Rematch and Restart begin another round with the cursor in the
    /// middle. Menu leads back to the game selection, Quit quits; both leave
    /// the screen as it is.
    pub open spec fn on_pause_key(self, code: KeyCode) -> (LocalGameView, ActionView) {
        let (pause, choice) = self.pause.on_key(code);
        match choice {
            PauseChoice::Stay => (LocalGameView { pause, ..self }, ActionView::Continue),
            PauseChoice::Rematch => (
                LocalGameView { game: self.game.rematch(), selected: (1, 1), pause },
                ActionView::Continue,
            ),
            PauseChoice::Restart => (
                LocalGameView { game: self.game.restart(), selected: (1, 1), pause },
                ActionView::Continue,
            ),
            PauseChoice::Leave => (
                self,
                ActionView::ChangeComponent(ComponentView::GameSelection(GameSelectionView::fresh())),
            ),
            PauseChoice::Quit => (self, ActionView::Quit),
        }
    }

    /// The screen after a key that goes to the running game: up, down, left
    /// and right move the cursor by one cell, up towards smaller `y`, and
    /// stop at the edge of the board; Esc shows the pause menu; Enter hits
    /// the cell under the cursor, and shows the pause menu if that decides
    /// the game.
    pub open spec fn on_game_key(self, code: KeyCode) -> LocalGameView {
        let (x, y) = self.selected;
        if code.is_up() {
            LocalGameView { selected: (x, backward(y)), ..self }
        } else if code.is_down() {
            LocalGameView { selected: (x, forward(y, 3)), ..self }
        } else if code.is_right() {
            LocalGameView { selected: (forward(x, 3), y), ..self }
        } else if code.is_left() {
            LocalGameView { selected: (backward(x), y), ..self }
        } else if code == KeyCode::Esc {
            LocalGameView { pause: self.pause.opened(), ..self }
        } else if code == KeyCode::Enter {
            let game = self.game.hit(x as int, y as int);
            LocalGameView {
                game,
                pause: if game.winner.player != Square::Empty {
                    self.pause.opened()
                } else {
                    self.pause
                },
                ..self
            }
        } else {
            self
        }
    }

    /// The screen after `key_event`, and what it asks of the driver.
    ///
    /// Only key presses count. While the pause menu is shown, it takes
    /// every key and none reaches the board. Else the key goes to the game
    /// while it is undecided; once it is decided, any key shows the pause
    /// menu.
    pub open spec fn on_key(self, key_event: KeyEvent) -> (LocalGameView, ActionView) {
        if key_event.kind != KeyEventKind::Press {
            (self, ActionView::Continue)
        } else if self.pause.open {
            self.on_pause_key(key_event.code)
        } else if self.game.winner.player == Square::Empty {
            (self.on_game_key(key_event.code), ActionView::Continue)
        } else {
            (LocalGameView { pause: self.pause.opened(), ..self }, ActionView::Continue)
        }
    }
}

/// The screen of the classic game of 3 by 3 cells.
pub struct LocalGame {
    game: Game,
    selected: (usize, usize),
    pause: PauseMenu,
}

impl View for LocalGame {
    type V = LocalGameView;

    closed spec fn view(&self) -> LocalGameView {
        LocalGameView {
            game: self.game@,
            selected: (self.selected.0 as nat, self.selected.1 as nat),
            pause: self.pause@,
        }
    }
}

impl LocalGame {
    /// The screen is well formed: see [`LocalGameView::wf`].
    pub open spec fn wf(&self) -> bool {
        self@.wf()
    }

    /// The screen of a classic game before the first move.
    pub fn new() -> (screen: LocalGame)
        ensures
            screen.wf(),
            screen@ == LocalGameView::fresh(),
    {
        LocalGame { game: Game::new(), selected: (1, 1), pause: PauseMenu::new() }
    }

    /// Reacts to a key while the pause menu is shown.
    fn handle_pause_key(&mut self, code: KeyCode) -> (action: Action)
        requires
            old(self).wf(),
        ensures
            final(self).wf(),
            action.wf(),
            (final(self)@, action@) == old(self)@.on_pause_key(code),
    {
        match self.pause.handle_key_event(code) {
            PauseChoice::Stay => Action::Continue,
            PauseChoice::Rematch => {
                self.game.rematch();
                self.selected = (1, 1);
                Action::Continue
            },
            PauseChoice::Restart => {
                self.game.restart();
                self.selected = (1, 1);
                Action::Continue
            },
            PauseChoice::Leave => Action::ChangeComponent(Component::GameSelection(GameSelection::new())),
            PauseChoice::Quit => Action::Quit,
        }
    }

    /// Reacts to a key while the game runs.
    fn handle_game_key(&mut self, code: KeyCode)
        requires
            old(self).wf(),
        ensures
            final(self).wf(),
            final(self)@ == old(self)@.on_game_key(code),
    {
        if code.is_up() {
            if self.selected.1 > 0 {
                self.selected.1 = self.selected.1 - 1;
            }
        } else if code.is_down() {
            if self.selected.1 < 2 {
                self.selected.1 = self.selected.1 + 1;
            }
        } else if code.is_right() {
            if self.selected.0 < 2 {
                self.selected.0 = self.selected.0 + 1;
            }
        } else if code.is_left() {
            if self.selected.0 > 0 {
                self.selected.0 = self.selected.0 - 1;
            }
        } else if code == KeyCode::Esc {
            self.pause.open();
        } else if code == KeyCode::Enter {
            self.game.hit(self.selected.0, self.selected.1);
            if self.game.winner().player != Square::Empty {
                self.pause.open();
            }
        }
    }

    /// Reacts to a key: steers the pause menu while it is shown, and the
    /// game else.
    pub fn handle_key_event(&mut self, key_event: KeyEvent) -> (action: Action)
        requires
            old(self).wf(),
        ensures
            final(self).wf(),
            action.wf(),
            (final(self)@, action@) == old(self)@.on_key(key_event),
    {
        if key_event.kind != KeyEventKind::Press {
            return Action::Continue;
        }
        if self.pause.is_open() {
            return self.handle_pause_key(key_event.code);
        } else if self.game.winner().player == Square::Empty {
            self.handle_game_key(key_event.code);
        } else {
            self.pause.open();
        }
        Action::Continue
    }

    /// The game that is played.
    pub fn game(&self) -> (game: &Game)
        ensures
            game@ == self@.game,
    {
        &self.game
    }

    /// The cell `(x, y)` under the cursor.
    pub fn selected(&self) -> (selected: (usize, usize))
        ensures
            selected.0 == self@.selected.0,
            selected.1 == self@.selected.1,
    {
        self.selected
    }

    /// The pause menu.
    pub fn pause(&self) -> (pause: &PauseMenu)
        ensures
            pause@ == self@.pause,
    {
        &self.pause
    }
}

/// While the pause menu is shown, no key reaches the board: the game stays
/// as it is, unless the player takes a rematch or a restart from the menu.
pub proof fn lemma_paused_keys_stay_off_the_board(s: LocalGameView, key_event: KeyEvent)
    requires
        s.pause.open,
    ensures
        s.on_key(key_event).0.game == s.game || s.on_key(key_event).0.game == s.game.rematch() || s.on_key(
            key_event,
        ).0.game == s.game.restart(),
{
}

} // verus!
