//! The screens and the parts they are built from.

use vstd::prelude::*;
use crate::action::{Action, ActionView};
use crate::components::game_selection::{GameSelection, GameSelectionView};
use crate::components::local_game::{LocalGame, LocalGameView};
use crate::components::main_menu::{MainMenu, MainMenuView};
use crate::components::normal_local_game::{NormalLocalGame, NormalLocalGameView};
use crate::components::super_local_game::{SuperLocalGame, SuperLocalGameView};
use crate::event::{Event, KeyEvent, KeyEventKind};

pub mod game;
pub mod game_selection;
pub mod local_game;
pub mod main_menu;
pub mod menu;
pub mod normal_local_game;
pub mod super_game;
pub mod super_local_game;

verus! {

/// One of the screens of the program.
pub enum Component {
    MainMenu(MainMenu),
    GameSelection(GameSelection),
    LocalGame(LocalGame),
    NormalLocalGame(NormalLocalGame),
    SuperLocalGame(SuperLocalGame),
}

/// The mathematical state of a [`Component`].
pub enum ComponentView {
    MainMenu(MainMenuView),
    GameSelection(GameSelectionView),
    LocalGame(LocalGameView),
    NormalLocalGame(NormalLocalGameView),
    SuperLocalGame(SuperLocalGameView),
}

impl ComponentView {
    /// The screen is well formed.
    pub open spec fn wf(self) -> bool {
        match self {
            ComponentView::MainMenu(screen) => screen.wf(),
            ComponentView::GameSelection(screen) => screen.wf(),
            ComponentView::LocalGame(screen) => screen.wf(),
            ComponentView::NormalLocalGame(screen) => screen.wf(),
            ComponentView::SuperLocalGame(screen) => screen.wf(),
        }
    }

    /// The screen after `key_event`, and what it asks of the driver.
    pub open spec fn on_key(self, key_event: KeyEvent) -> (ComponentView, ActionView) {
        match self {
            ComponentView::MainMenu(screen) => (
                ComponentView::MainMenu(screen.on_key(key_event).0),
                screen.on_key(key_event).1,
            ),
            ComponentView::GameSelection(screen) => (
                ComponentView::GameSelection(screen.on_key(key_event).0),
                screen.on_key(key_event).1,
            ),
            ComponentView::LocalGame(screen) => (
                ComponentView::LocalGame(screen.on_key(key_event).0),
                screen.on_key(key_event).1,
            ),
            ComponentView::NormalLocalGame(screen) => (
                ComponentView::NormalLocalGame(screen.on_key(key_event).0),
                screen.on_key(key_event).1,
            ),
            ComponentView::SuperLocalGame(screen) => (
                ComponentView::SuperLocalGame(screen.on_key(key_event).0),
                screen.on_key(key_event).1,
            ),
        }
    }

    /// The screen after the outcome of one wait for input, and what it asks
    /// of the driver: a key event goes to the key handler; pasted text, any
    /// other event and a wait that brought nothing change nothing.
    pub open spec fn on_event(self, event: Option<Event>) -> (ComponentView, ActionView) {
        match event {
            Some(Event::Key(key_event)) => self.on_key(key_event),
            _ => (self, ActionView::Continue),
        }
    }
}

impl View for Component {
    type V = ComponentView;

    open spec fn view(&self) -> ComponentView {
        match self {
            Component::MainMenu(screen) => ComponentView::MainMenu(screen@),
            Component::GameSelection(screen) => ComponentView::GameSelection(screen@),
            Component::LocalGame(screen) => ComponentView::LocalGame(screen@),
            Component::NormalLocalGame(screen) => ComponentView::NormalLocalGame(screen@),
            Component::SuperLocalGame(screen) => ComponentView::SuperLocalGame(screen@),
        }
    }
}

impl Component {
    /// The screen is well formed: see [`ComponentView::wf`].
    pub open spec fn wf(&self) -> bool {
        self@.wf()
    }

    /// Reacts to a key event.
    pub fn handle_key_event(&mut self, key_event: KeyEvent) -> (action: Action)
        requires
            old(self).wf(),
        ensures
            final(self).wf(),
            action.wf(),
            (final(self)@, action@) == old(self)@.on_key(key_event),
    {
        match self {
            Component::MainMenu(screen) => screen.handle_key_event(key_event),
            Component::GameSelection(screen) => screen.handle_key_event(key_event),
            Component::LocalGame(screen) => screen.handle_key_event(key_event),
            Component::NormalLocalGame(screen) => screen.handle_key_event(key_event),
            Component::SuperLocalGame(screen) => screen.handle_key_event(key_event),
        }
    }

    /// Reacts to pasted text: no screen takes any.
    pub fn handle_paste(&mut self, pasted_string: String) -> (action: Action)
        ensures
            final(self)@ == old(self)@,
            action is Continue,
    {
        Action::Continue
    }

    /// Brings the screen up to date before it is drawn: no screen changes
    /// with time.
    pub fn update(&mut self) -> (action: Action)
        ensures
            final(self)@ == old(self)@,
            action is Continue,
    {
        Action::Continue
    }

    /// Reacts to the outcome of one wait for input: `None` if the wait
    /// brought no event.
    pub fn handle_event(&mut self, event: Option<Event>) -> (action: Action)
        requires
            old(self).wf(),
        ensures
            final(self).wf(),
            action.wf(),
            (final(self)@, action@) == old(self)@.on_event(event),
    {
        match event {
            Some(Event::Key(key_event)) => self.handle_key_event(key_event),
            Some(Event::Paste(pasted_string)) => self.handle_paste(pasted_string),
            _ => Action::Continue,
        }
    }
}

/// Only key presses count: a key that is held or released changes no screen
/// and asks nothing of the driver.
pub proof fn lemma_only_presses_count(s: ComponentView, key_event: KeyEvent)
    requires
        key_event.kind != KeyEventKind::Press,
    ensures
        s.on_key(key_event) == (s, ActionView::Continue),
{
}

} // verus!
