//! The selection in a list of entries, and the pause menu of a running game.

use vstd::prelude::*;
use ratatui::widgets::ListState;
use crate::event::KeyCode;

verus! {

/// Calls ratatui's [`ListState::select_next`] on a list state with
/// `selected` and returns what is selected after it. Not proved here, but
/// taken from ratatui: the index after `selected`, staying at the largest
/// index there is, and the first index when nothing was selected.
#[verifier::external_body]
fn list_select_next(selected: Option<usize>) -> (next: Option<usize>)
    ensures
        next == Some(
            match selected {
                Some(i) => if i < usize::MAX {
                    (i + 1) as usize
                } else {
                    i
                },
                None => 0usize,
            },
        ),
{
    let mut state = ListState::default().with_selected(selected);
    state.select_next();
    state.selected()
}

/// Calls ratatui's [`ListState::select_previous`] on a list state with
/// `selected` and returns what is selected after it. Not proved here, but
/// taken from ratatui: the index before `selected`, staying at the first,
/// and the largest index there is when nothing was selected.
#[verifier::external_body]
fn list_select_previous(selected: Option<usize>) -> (previous: Option<usize>)
    ensures
        previous == Some(
            match selected {
                Some(i) => if i > 0 {
                    (i - 1) as usize
                } else {
                    i
                },
                None => usize::MAX,
            },
        ),
{
    let mut state = ListState::default().with_selected(selected);
    state.select_previous();
    state.selected()
}

/// The entry selected after the entry `selected` of a list of `len` entries:
/// the next one, and the last one again.
pub open spec fn next_entry(selected: nat, len: nat) -> nat {
    if selected + 1 < len {
        selected + 1
    } else {
        selected
    }
}

/// The entry selected before the entry `selected`: the one before it, and
/// the first one again.
pub open spec fn previous_entry(selected: nat) -> nat {
    if selected > 0 {
        (selected - 1) as nat
    } else {
        selected
    }
}

/// The entry `index`, or the last of the `len` entries if the list ends
/// before it.
fn within(index: usize, len: usize) -> (entry: usize)
    requires
        len > 0,
    ensures
        entry == (if index < len {
            index
        } else {
            (len - 1) as usize
        }),
{
    if index < len {
        index
    } else {
        len - 1
    }
}

/// Moves the selection in a list of `len` entries one entry down. The
/// selection never leaves the list.
pub(crate) fn select_next(selected: usize, len: usize) -> (next: usize)
    requires
        selected < len,
    ensures
        next == next_entry(selected as nat, len as nat),
{
    match list_select_next(Some(selected)) {
        Some(index) => within(index, len),
        None => selected,
    }
}

/// Moves the selection in a list of `len` entries one entry up. The
/// selection never leaves the list.
pub(crate) fn select_previous(selected: usize, len: usize) -> (previous: usize)
    requires
        selected < len,
    ensures
        previous == previous_entry(selected as nat),
{
    match list_select_previous(Some(selected)) {
        Some(index) => within(index, len),
        None => selected,
    }
}

/// What the player asked the pause menu for.
#[derive(Clone, Copy, PartialEq, Eq, Debug, Structural)]
pub enum PauseChoice {
    /// Nothing that concerns the game.
    Stay,
    /// Another round.
    Rematch,
    /// Another round with the scores cleared.
    Restart,
    /// Back to the screen the game was started from.
    Leave,
    /// End the program.
    Quit,
}

/// The mathematical state of a [`PauseMenu`].
pub struct PauseMenuView {
    /// The menu is shown and takes the input.
    pub open: bool,
    /// The index of the selected entry among Resume, Rematch, Restart, Menu
    /// and Quit.
    pub selected: nat,
}

impl PauseMenuView {
    /// The number of entries of the pause menu.
    pub open spec fn entries() -> nat {
        5
    }

    /// The selected entry is one of the menu's.
    pub open spec fn wf(self) -> bool {
        self.selected < Self::entries()
    }

    /// The pause menu of a game that has just begun: hidden, with the first
    /// entry selected.
    pub open spec fn closed() -> PauseMenuView {
        PauseMenuView { open: false, selected: 0 }
    }

    /// The same menu, shown.
    pub open spec fn opened(self) -> PauseMenuView {
        PauseMenuView { open: true, selected: self.selected }
    }

    /// The shown menu after the key `code`, and what the player chose by it.
    ///
    /// Esc closes the menu. Down and up move the selection. Enter takes the
    /// selected entry: Resume closes the menu, Rematch and Restart close it
    /// and are handed on, Menu and Quit are handed on with the menu as it is.
    /// A closed menu is left with the first entry selected.
    pub open spec fn on_key(self, code: KeyCode) -> (PauseMenuView, PauseChoice) {
        if code == KeyCode::Esc {
            (Self::closed(), PauseChoice::Stay)
        } else if code.is_down() {
            (
                PauseMenuView { open: self.open, selected: next_entry(self.selected, Self::entries()) },
                PauseChoice::Stay,
            )
        } else if code.is_up() {
            (PauseMenuView { open: self.open, selected: previous_entry(self.selected) }, PauseChoice::Stay)
        } else if code == KeyCode::Enter {
            if self.selected == 0 {
                (Self::closed(), PauseChoice::Stay)
            } else if self.selected == 1 {
                (Self::closed(), PauseChoice::Rematch)
            } else if self.selected == 2 {
                (Self::closed(), PauseChoice::Restart)
            } else if self.selected == 3 {
                (self, PauseChoice::Leave)
            } else if self.selected == 4 {
                (self, PauseChoice::Quit)
            } else {
                (self, PauseChoice::Stay)
            }
        } else {
            (self, PauseChoice::Stay)
        }
    }
}

/// The menu that a running game shows while it is paused.
pub struct PauseMenu {
    open: bool,
    selected: usize,
}

impl View for PauseMenu {
    type V = PauseMenuView;

    closed spec fn view(&self) -> PauseMenuView {
        PauseMenuView { open: self.open, selected: self.selected as nat }
    }
}

impl PauseMenu {
    /// The menu is well formed: see [`PauseMenuView::wf`].
    pub open spec fn wf(&self) -> bool {
        self@.wf()
    }

    /// The pause menu of a game that has just begun: hidden.
    pub fn new() -> (pause: PauseMenu)
        ensures
            pause.wf(),
            pause@ == PauseMenuView::closed(),
    {
        PauseMenu { open: false, selected: 0 }
    }

    /// Whether the menu is shown.
    pub fn is_open(&self) -> (open: bool)
        ensures
            open == self@.open,
    {
        self.open
    }

    /// The index of the selected entry.
    pub fn selected(&self) -> (selected: usize)
        ensures
            selected == self@.selected,
    {
        self.selected
    }

    /// Shows the menu.
    pub fn open(&mut self)
        ensures
            final(self)@ == old(self)@.opened(),
    {
        self.open = true;
    }

    /// Hides the menu and selects its first entry.
    fn close(&mut self)
        ensures
            final(self)@ == PauseMenuView::closed(),
    {
        self.open = false;
        self.selected = 0;
    }

    /// Reacts to the key `code` while the menu is shown.
    pub fn handle_key_event(&mut self, code: KeyCode) -> (choice: PauseChoice)
        requires
            old(self).wf(),
        ensures
            final(self).wf(),
            (final(self)@, choice) == old(self)@.on_key(code),
    {
        if code == KeyCode::Esc {
            self.close();
            PauseChoice::Stay
        } else if code.is_down() {
            self.selected = select_next(self.selected, 5);
            PauseChoice::Stay
        } else if code.is_up() {
            self.selected = select_previous(self.selected, 5);
            PauseChoice::Stay
        } else if code == KeyCode::Enter {
            if self.selected == 0 {
                self.close();
                PauseChoice::Stay
            } else if self.selected == 1 {
                self.close();
                PauseChoice::Rematch
            } else if self.selected == 2 {
                self.close();
                PauseChoice::Restart
            } else if self.selected == 3 {
                PauseChoice::Leave
            } else if self.selected == 4 {
                PauseChoice::Quit
            } else {
                PauseChoice::Stay
            }
        } else {
            PauseChoice::Stay
        }
    }
}

} // verus!
