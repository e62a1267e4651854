//! The driver's side of the navigation: which screen is active, and what an
//! action of a screen does to that.

use vstd::prelude::*;
use crate::action::{Action, ActionView};
use crate::components::main_menu::{MainMenu, MainMenuView};
use crate::components::{Component, ComponentView};
use crate::event::Event;

verus! {

impl ComponentView {
    /// The active screen after `action`, and whether the program goes on:
    /// a change of screen replaces the active screen, quitting ends the
    /// program, and anything else leaves the screen as it is.
    pub open spec fn apply(self, action: ActionView) -> (ComponentView, bool) {
        match action {
            ActionView::Quit => (self, false),
            ActionView::ChangeComponent(component) => (component, true),
            ActionView::Continue => (self, true),
        }
    }

    /// The active screen after it was brought up to date, and whether the
    /// program goes on: no screen changes with time.
    pub open spec fn after_update(self) -> (ComponentView, bool) {
        self.apply(ActionView::Continue)
    }

    /// The active screen after the outcome of one wait for input was
    /// handled and the action of the screen applied, and whether the
    /// program goes on.
    pub open spec fn after_event(self, event: Option<Event>) -> (ComponentView, bool) {
        self.on_event(event).0.apply(self.on_event(event).1)
    }
}

/// The program as the driver loop sees it: the active screen.
pub struct App {
    component: Component,
}

impl View for App {
    type V = ComponentView;

    closed spec fn view(&self) -> ComponentView {
        self.component@
    }
}

impl App {
    /// The active screen is well formed.
    pub open spec fn wf(&self) -> bool {
        self@.wf()
    }

    /// The program at its start: the main menu is the active screen.
    pub fn new() -> (app: App)
        ensures
            app.wf(),
            app@ == ComponentView::MainMenu(MainMenuView::fresh()),
    {
        App { component: Component::MainMenu(MainMenu::new()) }
    }

    /// Applies an action of the active screen. Returns whether the program
    /// goes on.
    pub fn handle_action(&mut self, action: Action) -> (running: bool)
        requires
            old(self).wf(),
            action.wf(),
        ensures
            final(self).wf(),
            (final(self)@, running) == old(self)@.apply(action@),
    {
        match action {
            Action::Quit => false,
            Action::ChangeComponent(new_component) => {
                self.component = new_component;
                true
            },
            _ => true,
        }
    }

    /// The first part of a tick: brings the active screen up to date and
    /// applies its action. Returns whether the program goes on.
    pub fn update(&mut self) -> (running: bool)
        requires
            old(self).wf(),
        ensures
            final(self).wf(),
            (final(self)@, running) == old(self)@.after_update(),
    {
        let action = self.component.update();
        self.handle_action(action)
    }

    /// The last part of a tick: hands the outcome of the wait for input,
    /// `None` if it brought no event, to the active screen and applies its
    /// action. Returns whether the program goes on.
    pub fn handle_event(&mut self, event: Option<Event>) -> (running: bool)
        requires
            old(self).wf(),
        ensures
            final(self).wf(),
            (final(self)@, running) == old(self)@.after_event(event),
    {
        let action = self.component.handle_event(event);
        self.handle_action(action)
    }

    /// The active screen.
    pub fn component(&self) -> (component: &Component)
        ensures
            component@ == self@,
    {
        &self.component
    }
}

} // verus!
