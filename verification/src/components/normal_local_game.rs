//! A game with a cursor as a screen, with the pause menu.

use vstd::prelude::*;
use crate::action::{Action, ActionView};
use crate::components::game::{Game, GameView, Square};
use crate::components::main_menu::{MainMenu, MainMenuView};
use crate::components::menu::{PauseChoice, PauseMenu, PauseMenuView};
use crate::components::{Component, ComponentView};
use crate::event::{KeyCode, KeyEvent, KeyEventKind};

verus! {

/// The mathematical state of a [`NormalLocalGame`].
pub struct NormalLocalGameView {
    pub game: GameView,
    pub pause: PauseMenuView,
}

impl NormalLocalGameView {
    /// The game and the pause menu are well formed.
    pub open spec fn wf(self) -> bool {
        self.game.wf() && self.pause.wf()
    }

    /// The screen of a classic game before the first move.
    pub open spec fn fresh() -> NormalLocalGameView {
        NormalLocalGameView { game: GameView::fresh(3, 3), pause: PauseMenuView::closed() }
    }

    /// The screen after a key that goes to the shown pause menu.
    ///
    /// Rematch and Restart begin another round. Menu leads back to the main
    /// menu, Quit quits; both leave the screen as it is.
    pub open spec fn on_pause_key(self, code: KeyCode) -> (NormalLocalGameView, ActionView) {
        let (pause, choice) = self.pause.on_key(code);
        match choice {
            PauseChoice::Stay => (NormalLocalGameView { pause, ..self }, ActionView::Continue),
            PauseChoice::Rematch => (NormalLocalGameView { game: self.game.rematch(), pause }, ActionView::Continue),
            PauseChoice::Restart => (NormalLocalGameView { game: self.game.restart(), pause }, ActionView::Continue),
            PauseChoice::Leave => (self, ActionView::ChangeComponent(ComponentView::MainMenu(MainMenuView::fresh()))),
            PauseChoice::Quit => (self, ActionView::Quit),
        }
    }

    /// The screen after a key while the game runs: Esc shows the pause
    /// menu; every other key goes to the game, and the pause menu is shown
    /// if the game is decided after it.
    pub open spec fn on_game_key(self, key_event: KeyEvent) -> NormalLocalGameView {
        if key_event.code == KeyCode::Esc {
            NormalLocalGameView { pause: self.pause.opened(), ..self }
        } else {
            let game = self.game.on_key(key_event);
            NormalLocalGameView {
                game,
                pause: if game.game.winner.player != Square::Empty {
                    self.pause.opened()
                } else {
                    self.pause
                },
            }
        }
    }

    /// The screen after `key_event`, and what it asks of the driver.
    ///
    /// Only key presses count. While the pause menu is shown, it takes
    /// every key and none reaches the board. Else the key goes to the game
    /// while it is undecided; once it is decided, any key shows the pause
    /// menu.
    pub open spec fn on_key(self, key_event: KeyEvent) -> (NormalLocalGameView, ActionView) {
        if key_event.kind != KeyEventKind::Press {
            (self, ActionView::Continue)
        } else if self.pause.open {
            self.on_pause_key(key_event.code)
        } else if self.game.game.winner.player == Square::Empty {
            (self.on_game_key(key_event), ActionView::Continue)
        } else {
            (NormalLocalGameView { pause: self.pause.opened(), ..self }, ActionView::Continue)
        }
    }
}

/// The screen of a single game that is steered by its own cursor.
pub struct NormalLocalGame {
    game: Game,
    pause: PauseMenu,
}

impl View for NormalLocalGame {
    type V = NormalLocalGameView;

    closed spec fn view(&self) -> NormalLocalGameView {
        NormalLocalGameView { game: self.game@, pause: self.pause@ }
    }
}

impl NormalLocalGame {
    /// The screen is well formed: see [`NormalLocalGameView::wf`].
    pub open spec fn wf(&self) -> bool {
        self@.wf()
    }

    /// The screen of a classic game before the first move.
    pub fn new() -> (screen: NormalLocalGame)
        ensures
            screen.wf(),
            screen@ == NormalLocalGameView::fresh(),
    {
        NormalLocalGame { game: Game::new(), pause: PauseMenu::new() }
    }

    /// Reacts to a key while the pause menu is shown.
    fn handle_pause_key(&mut self, code: KeyCode) -> (action: Action)
        requires
            old(self).wf(),
        ensures
            final(self).wf(),
            action.wf(),
            (final(self)@, action@) == old(self)@.on_pause_key(code),
    {
        match self.pause.handle_key_event(code) {
            PauseChoice::Stay => Action::Continue,
            PauseChoice::Rematch => {
                self.game.rematch();
                Action::Continue
            },
            PauseChoice::Restart => {
                self.game.restart();
                Action::Continue
            },
            PauseChoice::Leave => Action::ChangeComponent(Component::MainMenu(MainMenu::new())),
            PauseChoice::Quit => Action::Quit,
        }
    }

    /// Reacts to a key while the game runs.
    fn handle_game_key(&mut self, key_event: KeyEvent)
        requires
            old(self).wf(),
        ensures
            final(self).wf(),
            final(self)@ == old(self)@.on_game_key(key_event),
    {
        if key_event.code == KeyCode::Esc {
            self.pause.open();
        } else {
            self.game.handle_key_event(key_event);
            if self.game.winner().player != Square::Empty {
                self.pause.open();
            }
        }
    }

    /// Reacts to a key: steers the pause menu while it is shown, and the
    /// game else.
    pub fn handle_key_event(&mut self, key_event: KeyEvent) -> (action: Action)
        requires
            old(self).wf(),
        ensures
            final(self).wf(),
            action.wf(),
            (final(self)@, action@) == old(self)@.on_key(key_event),
    {
        if key_event.kind != KeyEventKind::Press {
            return Action::Continue;
        }
        if self.pause.is_open() {
            return self.handle_pause_key(key_event.code);
        } else if self.game.winner().player == Square::Empty {
            self.handle_game_key(key_event);
        } else {
            self.pause.open();
        }
        Action::Continue
    }

    /// The game that is played.
    pub fn game(&self) -> (game: &Game)
        ensures
            game@ == self@.game,
    {
        &self.game
    }

    /// The pause menu.
    pub fn pause(&self) -> (pause: &PauseMenu)
        ensures
            pause@ == self@.pause,
    {
        &self.pause
    }
}

/// While the pause menu is shown, no key reaches the board: the game stays
/// as it is, unless the player takes a rematch or a restart from the menu.
pub proof fn lemma_paused_keys_stay_off_the_board(s: NormalLocalGameView, key_event: KeyEvent)
    requires
        s.pause.open,
    ensures
        s.on_key(key_event).0.game == s.game || s.on_key(key_event).0.game == s.game.rematch() || s.on_key(
            key_event,
        ).0.game == s.game.restart(),
{
}

} // verus!
