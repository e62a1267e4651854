//! The screen that offers the classic local game.

use vstd::prelude::*;
use crate::action::{Action, ActionView};
use crate::components::local_game::{LocalGame, LocalGameView};
use crate::components::menu::{next_entry, previous_entry, select_next, select_previous};
use crate::components::{Component, ComponentView};
use crate::event::{KeyCode, KeyEvent, KeyEventKind};

verus! {

/// The mathematical state of a [`GameSelection`].
pub struct GameSelectionView {
    /// The index of the selected entry among Local and Quit.
    pub selected: nat,
}

impl GameSelectionView {
    /// The number of entries of the list.
    pub open spec fn entries() -> nat {
        2
    }

    /// The selected entry is one of the list's.
    pub open spec fn wf(self) -> bool {
        self.selected < Self::entries()
    }

    /// The selection as it is first shown.
    pub open spec fn fresh() -> GameSelectionView {
        GameSelectionView { selected: 0 }
    }

    /// The selection after `key_event`, and what it asks of the driver.
    ///
    /// Only key presses count. `q` quits. Down and up move the selection.
    /// Enter takes the selected entry: Local starts a classic game, Quit
    /// quits.
    pub open spec fn on_key(self, key_event: KeyEvent) -> (GameSelectionView, ActionView) {
        if key_event.kind != KeyEventKind::Press {
            (self, ActionView::Continue)
        } else if key_event.code == KeyCode::Char('q') {
            (self, ActionView::Quit)
        } else if key_event.code.is_down() {
            (GameSelectionView { selected: next_entry(self.selected, Self::entries()) }, ActionView::Continue)
        } else if key_event.code.is_up() {
            (GameSelectionView { selected: previous_entry(self.selected) }, ActionView::Continue)
        } else if key_event.code == KeyCode::Enter {
            if self.selected == 0 {
                (self, ActionView::ChangeComponent(ComponentView::LocalGame(LocalGameView::fresh())))
            } else if self.selected == 1 {
                (self, ActionView::Quit)
            } else {
                (self, ActionView::Continue)
            }
        } else {
            (self, ActionView::Continue)
        }
    }
}

/// The screen on which the player picks the game to play.
pub struct GameSelection {
    selected: usize,
}

impl View for GameSelection {
    type V = GameSelectionView;

    closed spec fn view(&self) -> GameSelectionView {
        GameSelectionView { selected: self.selected as nat }
    }
}

impl GameSelection {
    /// The selection is well formed: see [`GameSelectionView::wf`].
    pub open spec fn wf(&self) -> bool {
        self@.wf()
    }

    /// The selection with its first entry selected.
    pub fn new() -> (selection: GameSelection)
        ensures
            selection.wf(),
            selection@ == GameSelectionView::fresh(),
    {
        GameSelection { selected: 0 }
    }

    /// The index of the selected entry.
    pub fn selected(&self) -> (selected: usize)
        ensures
            selected == self@.selected,
    {
        self.selected
    }

    /// Reacts to a key: moves the selection, or takes the selected entry.
    pub fn handle_key_event(&mut self, key_event: KeyEvent) -> (action: Action)
        requires
            old(self).wf(),
        ensures
            final(self).wf(),
            action.wf(),
            (final(self)@, action@) == old(self)@.on_key(key_event),
    {
        if key_event.kind != KeyEventKind::Press {
            return Action::Continue;
        }
        if key_event.code == KeyCode::Char('q') {
            return Action::Quit;
        } else if key_event.code.is_down() {
            self.selected = select_next(self.selected, 2);
        } else if key_event.code.is_up() {
            self.selected = select_previous(self.selected, 2);
        } else if key_event.code == KeyCode::Enter {
            if self.selected == 0 {
                return Action::ChangeComponent(Component::LocalGame(LocalGame::new()));
            } else if self.selected == 1 {
                return Action::Quit;
            }
        }
        Action::Continue
    }
}

} // verus!
