//! The nested game as a screen: the choice of its size, the game itself and
//! the pause menu.

use vstd::prelude::*;
use crate::action::{Action, ActionView};
use crate::components::game::Square;
use crate::components::main_menu::{MainMenu, MainMenuView};
use crate::components::menu::{PauseChoice, PauseMenu, PauseMenuView};
use crate::components::super_game::{with_selector, SuperGame, SuperGameView};
use crate::components::{Component, ComponentView};
use crate::event::{KeyCode, KeyEvent, KeyEventKind};

verus! {

/// The mathematical state of a [`SuperLocalGame`].
pub struct SuperLocalGameView {
    pub game: SuperGameView,
    pub pause: PauseMenuView,
    /// The player is still choosing the size of the game.
    pub in_setup: bool,
}

impl SuperLocalGameView {
    /// The nested game and the pause menu are well formed.
    pub open spec fn wf(self) -> bool {
        self.game.wf() && self.pause.wf()
    }

    /// `game` with the cursor of the meta-board shown or hidden.
    pub open spec fn with_meta_selector(game: SuperGameView, show: bool) -> SuperGameView {
        SuperGameView { managing_game: with_selector(game.managing_game, show), ..game }
    }

    /// The screen as it is first shown: a nested game of 3 by 3 sub-games
    /// whose size the player may still change, with the cursor of the
    /// meta-board hidden meanwhile.
    pub open spec fn fresh() -> SuperLocalGameView {
        SuperLocalGameView {
            game: Self::with_meta_selector(SuperGameView::fresh(), false),
            pause: PauseMenuView::closed(),
            in_setup: true,
        }
    }

    /// The screen after a key while the size is chosen: Enter ends the
    /// choice and shows the cursor of the meta-board; down makes the game
    /// one smaller and up one larger, as far as a game of that size exists.
    pub open spec fn on_setup_key(self, code: KeyCode) -> SuperLocalGameView {
        if code == KeyCode::Enter {
            SuperLocalGameView { game: Self::with_meta_selector(self.game, true), in_setup: false, ..self }
        } else if code.is_down() {
            SuperLocalGameView { game: self.game.set_size((self.game.size() - 1) as nat), ..self }
        } else if code.is_up() {
            if self.game.size() < usize::MAX {
                SuperLocalGameView { game: self.game.set_size(self.game.size() + 1), ..self }
            } else {
                self
            }
        } else {
            self
        }
    }

    /// The screen after a key that goes to the shown pause menu.
    ///
    /// Rematch and Restart begin another round. Menu leads back to the main
    /// menu, Quit quits; both leave the screen as it is.
    pub open spec fn on_pause_key(self, code: KeyCode) -> (SuperLocalGameView, ActionView) {
        let (pause, choice) = self.pause.on_key(code);
        match choice {
            PauseChoice::Stay => (SuperLocalGameView { pause, ..self }, ActionView::Continue),
            PauseChoice::Rematch => (
                SuperLocalGameView { game: self.game.rematch(), pause, ..self },
                ActionView::Continue,
            ),
            PauseChoice::Restart => (
                SuperLocalGameView { game: self.game.restart(), pause, ..self },
                ActionView::Continue,
            ),
            PauseChoice::Leave => (self, ActionView::ChangeComponent(ComponentView::MainMenu(MainMenuView::fresh()))),
            PauseChoice::Quit => (self, ActionView::Quit),
        }
    }

    /// The screen after a key while the game runs: Esc shows the pause
    /// menu; every other key goes to the nested game, and the pause menu is
    /// shown if the meta-game is decided after it.
    pub open spec fn on_game_key(self, key_event: KeyEvent) -> SuperLocalGameView {
        if key_event.code == KeyCode::Esc {
            SuperLocalGameView { pause: self.pause.opened(), ..self }
        } else {
            let game = self.game.on_key(key_event);
            SuperLocalGameView {
                game,
                pause: if game.managing_game.game.winner.player != Square::Empty {
                    self.pause.opened()
                } else {
                    self.pause
                },
                ..self
            }
        }
    }

    /// The screen after `key_event`, and what it asks of the driver.
    ///
    /// Only key presses count. First the size is chosen. After that, while
    /// the pause menu is shown, it takes every key and none reaches the
    /// boards. Else the key goes to the nested game while the meta-game is
    /// undecided; once it is decided, any key shows the pause menu.
    pub open spec fn on_key(self, key_event: KeyEvent) -> (SuperLocalGameView, ActionView) {
        if key_event.kind != KeyEventKind::Press {
            (self, ActionView::Continue)
        } else if self.in_setup {
            (self.on_setup_key(key_event.code), ActionView::Continue)
        } else if self.pause.open {
            self.on_pause_key(key_event.code)
        } else if self.game.managing_game.game.winner.player == Square::Empty {
            (self.on_game_key(key_event), ActionView::Continue)
        } else {
            (SuperLocalGameView { pause: self.pause.opened(), ..self }, ActionView::Continue)
        }
    }
}

/// The screen of the nested game.
pub struct SuperLocalGame {
    game: SuperGame,
    pause: PauseMenu,
    in_setup: bool,
}

impl View for SuperLocalGame {
    type V = SuperLocalGameView;

    closed spec fn view(&self) -> SuperLocalGameView {
        SuperLocalGameView { game: self.game@, pause: self.pause@, in_setup: self.in_setup }
    }
}

impl SuperLocalGame {
    /// The screen is well formed: see [`SuperLocalGameView::wf`].
    pub open spec fn wf(&self) -> bool {
        self@.wf()
    }

    /// The screen of a nested game whose size is still to be chosen.
    pub fn new() -> (screen: SuperLocalGame)
        ensures
            screen.wf(),
            screen@ == SuperLocalGameView::fresh(),
    {
        let mut game = SuperGame::new();
        game.set_meta_selector(false);
        SuperLocalGame { game, pause: PauseMenu::new(), in_setup: true }
    }

    /// Reacts to a key while the size is chosen.
    fn handle_setup_key(&mut self, code: KeyCode)
        requires
            old(self).wf(),
        ensures
            final(self).wf(),
            final(self)@ == old(self)@.on_setup_key(code),
    {
        if code == KeyCode::Enter {
            self.in_setup = false;
            self.game.set_meta_selector(true);
        } else if code.is_down() {
            let size = self.game.managing_game().size();
            self.game.set_size(size - 1);
        } else if code.is_up() {
            let size = self.game.managing_game().size();
            match size.checked_add(1) {
                Some(larger) => self.game.set_size(larger),
                None => {},
            }
        }
    }

    /// Reacts to a key while the pause menu is shown.
    fn handle_pause_key(&mut self, code: KeyCode) -> (action: Action)
        requires
            old(self).wf(),
        ensures
            final(self).wf(),
            action.wf(),
            (final(self)@, action@) == old(self)@.on_pause_key(code),
    {
        match self.pause.handle_key_event(code) {
            PauseChoice::Stay => Action::Continue,
            PauseChoice::Rematch => {
                self.game.rematch();
                Action::Continue
            },
            PauseChoice::Restart => {
                self.game.restart();
                Action::Continue
            },
            PauseChoice::Leave => Action::ChangeComponent(Component::MainMenu(MainMenu::new())),
            PauseChoice::Quit => Action::Quit,
        }
    }

    /// Reacts to a key while the game runs.
    fn handle_game_key(&mut self, key_event: KeyEvent)
        requires
            old(self).wf(),
        ensures
            final(self).wf(),
            final(self)@ == old(self)@.on_game_key(key_event),
    {
        if key_event.code == KeyCode::Esc {
            self.pause.open();
        } else {
            self.game.handle_key_event(key_event);
            if self.game.managing_game().winner().player != Square::Empty {
                self.pause.open();
            }
        }
    }

    /// Reacts to a key: chooses the size, steers the pause menu while it is
    /// shown, and the nested game else.
    pub fn handle_key_event(&mut self, key_event: KeyEvent) -> (action: Action)
        requires
            old(self).wf(),
        ensures
            final(self).wf(),
            action.wf(),
            (final(self)@, action@) == old(self)@.on_key(key_event),
    {
        if key_event.kind != KeyEventKind::Press {
            return Action::Continue;
        }
        if self.in_setup {
            self.handle_setup_key(key_event.code);
        } else if self.pause.is_open() {
            return self.handle_pause_key(key_event.code);
        } else if self.game.managing_game().winner().player == Square::Empty {
            self.handle_game_key(key_event);
        } else {
            self.pause.open();
        }
        Action::Continue
    }

    /// The nested game that is played.
    pub fn game(&self) -> (game: &SuperGame)
        ensures
            game@ == self@.game,
    {
        &self.game
    }

    /// The pause menu.
    pub fn pause(&self) -> (pause: &PauseMenu)
        ensures
            pause@ == self@.pause,
    {
        &self.pause
    }

    /// Whether the player is still choosing the size of the game.
    pub fn in_setup(&self) -> (in_setup: bool)
        ensures
            in_setup == self@.in_setup,
    {
        self.in_setup
    }
}

/// While the pause menu is shown, no key reaches the boards: the nested
/// game stays as it is, unless the player takes a rematch or a restart from
/// the menu.
pub proof fn lemma_paused_keys_stay_off_the_boards(s: SuperLocalGameView, key_event: KeyEvent)
    requires
        !s.in_setup,
        s.pause.open,
    ensures
        s.on_key(key_event).0.game == s.game || s.on_key(key_event).0.game == s.game.rematch() || s.on_key(
            key_event,
        ).0.game == s.game.restart(),
{
}

} // verus!
