//! The first screen: the list of what the program offers.

use vstd::prelude::*;
use crate::action::{Action, ActionView};
use crate::components::game_selection::{GameSelection, GameSelectionView};
use crate::components::menu::{next_entry, previous_entry, select_next, select_previous};
use crate::components::normal_local_game::{NormalLocalGame, NormalLocalGameView};
use crate::components::super_local_game::{SuperLocalGame, SuperLocalGameView};
use crate::components::{Component, ComponentView};
use crate::event::{KeyCode, KeyEvent, KeyEventKind};

verus! {

/// The mathematical state of a [`MainMenu`].
pub struct MainMenuView {
    /// The index of the selected entry among Local, Normal, Super and Quit.
    pub selected: nat,
}

impl MainMenuView {
    /// The number of entries of the main menu.
    pub open spec fn entries() -> nat {
        4
    }

    /// The selected entry is one of the menu's.
    pub open spec fn wf(self) -> bool {
        self.selected < Self::entries()
    }

    /// The main menu as the program shows it first.
    pub open spec fn fresh() -> MainMenuView {
        MainMenuView { selected: 0 }
    }

    /// The main menu after `key_event`, and what it asks of the driver.
    ///
    /// Only key presses count. `q` quits. Down and up move the selection.
    /// Enter takes the selected entry: Local leads to the game selection,
    /// Normal to a game with a cursor, Super to a nested game, Quit quits.
    pub open spec fn on_key(self, key_event: KeyEvent) -> (MainMenuView, ActionView) {
        if key_event.kind != KeyEventKind::Press {
            (self, ActionView::Continue)
        } else if key_event.code == KeyCode::Char('q') {
            (self, ActionView::Quit)
        } else if key_event.code.is_down() {
            (MainMenuView { selected: next_entry(self.selected, Self::entries()) }, ActionView::Continue)
        } else if key_event.code.is_up() {
            (MainMenuView { selected: previous_entry(self.selected) }, ActionView::Continue)
        } else if key_event.code == KeyCode::Enter {
            if self.selected == 0 {
                (self, ActionView::ChangeComponent(ComponentView::GameSelection(GameSelectionView::fresh())))
            } else if self.selected == 1 {
                (self, ActionView::ChangeComponent(ComponentView::NormalLocalGame(NormalLocalGameView::fresh())))
            } else if self.selected == 2 {
                (self, ActionView::ChangeComponent(ComponentView::SuperLocalGame(SuperLocalGameView::fresh())))
            } else if self.selected == 3 {
                (self, ActionView::Quit)
            } else {
                (self, ActionView::Continue)
            }
        } else {
            (self, ActionView::Continue)
        }
    }
}

/// The screen that the program begins with.
pub struct MainMenu {
    selected: usize,
}

impl View for MainMenu {
    type V = MainMenuView;

    closed spec fn view(&self) -> MainMenuView {
        MainMenuView { selected: self.selected as nat }
    }
}

impl MainMenu {
    /// The menu is well formed: see [`MainMenuView::wf`].
    pub open spec fn wf(&self) -> bool {
        self@.wf()
    }

    /// The main menu with its first entry selected.
    pub fn new() -> (menu: MainMenu)
        ensures
            menu.wf(),
            menu@ == MainMenuView::fresh(),
    {
        MainMenu { selected: 0 }
    }

    /// The index of the selected entry.
    pub fn selected(&self) -> (selected: usize)
        ensures
            selected == self@.selected,
    {
        self.selected
    }

    /// Reacts to a key: moves the selection, or takes the selected entry.
    pub fn handle_key_event(&mut self, key_event: KeyEvent) -> (action: Action)
        requires
            old(self).wf(),
        ensures
            final(self).wf(),
            action.wf(),
            (final(self)@, action@) == old(self)@.on_key(key_event),
    {
        if key_event.kind != KeyEventKind::Press {
            return Action::Continue;
        }
        if key_event.code == KeyCode::Char('q') {
            return Action::Quit;
        } else if key_event.code.is_down() {
            self.selected = select_next(self.selected, 4);
        } else if key_event.code.is_up() {
            self.selected = select_previous(self.selected, 4);
        } else if key_event.code == KeyCode::Enter {
            if self.selected == 0 {
                return Action::ChangeComponent(Component::GameSelection(GameSelection::new()));
            } else if self.selected == 1 {
                return Action::ChangeComponent(Component::NormalLocalGame(NormalLocalGame::new()));
            } else if self.selected == 2 {
                return Action::ChangeComponent(Component::SuperLocalGame(SuperLocalGame::new()));
            } else if self.selected == 3 {
                return Action::Quit;
            }
        }
        Action::Continue
    }
}

} // verus!
