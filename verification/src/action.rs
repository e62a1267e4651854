//! What a screen asks of the driver after it has handled an event.

use vstd::prelude::*;
use crate::components::{Component, ComponentView};

verus! {

/// The request of a screen to the driver.
pub enum Action {
    /// Go on with the active screen.
    Continue,
    /// Make the given screen the active one.
    ChangeComponent(Component),
    /// End the program.
    Quit,
}

/// The mathematical value of an [`Action`].
pub enum ActionView {
    Continue,
    ChangeComponent(ComponentView),
    Quit,
}

impl View for Action {
    type V = ActionView;

    open spec fn view(&self) -> ActionView {
        match self {
            Action::Continue => ActionView::Continue,
            Action::ChangeComponent(screen) => ActionView::ChangeComponent(screen@),
            Action::Quit => ActionView::Quit,
        }
    }
}

impl Action {
    /// A screen that the action brings is well formed.
    pub open spec fn wf(&self) -> bool {
        match self {
            Action::ChangeComponent(screen) => screen.wf(),
            _ => true,
        }
    }
}

} // verus!
