//! A stack of screens in which every screen but the first is presented
//! modally on top of the ones below it.

use vstd::prelude::*;

verus! {

/// The screens of a modal navigator, from the first to the top one.
pub struct ModalStack<T> {
    screens: Vec<T>,
}

impl<T> ModalStack<T> {
    /// The screens, from the first to the top one.
    pub closed spec fn spec_screens(self) -> Seq<T> {
        self.screens@
    }

    /// Returns a stack that holds only the given screen.
    pub fn new(initial: T) -> (r: ModalStack<T>)
        ensures
            r.spec_screens() == seq![initial],
    {
        let mut screens = Vec::new();
        screens.push(initial);
        ModalStack { screens }
    }

    /// Presents the given screen on top of the others.
    pub fn navigate(&mut self, screen: T)
        ensures
            final(self).spec_screens() == old(self).spec_screens().push(screen),
    {
        self.screens.push(screen);
    }

    /// Dismisses the top screen (popping or dismissing a modal screen); an
    /// empty stack stays empty.
    pub fn pop(&mut self)
        ensures
            old(self).spec_screens().len() > 0 ==> final(self).spec_screens() == old(self).spec_screens().drop_last(),
            old(self).spec_screens().len() == 0 ==> final(self).spec_screens() == old(self).spec_screens(),
    {
        self.screens.pop();
    }

    /// Returns the screens, from the first to the top one.
    pub fn screens(&self) -> (r: &Vec<T>)
        ensures
            r@ == self.spec_screens(),
    {
        &self.screens
    }

    /// Returns whether the screen at position `i` is presented in a modal
    /// container: every screen but the first.
    pub fn is_modal(&self, i: usize) -> (r: bool)
        ensures
            r == (i > 0),
    {
        i > 0
    }
}

/// What a modal container does when it is asked to dismiss its screen.
#[derive(Copy, Clone, Debug, Eq, PartialEq, Structural)]
pub enum DismissAction {
    /// The screen is still present: tell the navigator, which pops it.
    Dismiss,
    /// The screen is already leaving: tell its presence that it is safe to
    /// remove it.
    Remove,
}

/// The state of the container of a modal screen: whether its screen has
/// been dismissed.
pub struct ModalContainer {
    /// Whether the screen has been dismissed.
    pub dismissed: bool,
}

impl ModalContainer {
    /// Returns a container whose screen has not been dismissed.
    pub fn new() -> (r: ModalContainer)
        ensures
            !r.dismissed,
    {
        ModalContainer { dismissed: false }
    }

    /// Returns whether the container, drawn while its screen is present or
    /// not, tells the presence that it is safe to remove the screen: once it
    /// is gone after having been dismissed.
    pub fn is_safe_to_remove(&self, is_present: bool) -> (r: bool)
        ensures
            r == (!is_present && self.dismissed),
    {
        !is_present && self.dismissed
    }

    /// Handles the dismissal of the screen: it is dismissed from now on, and
    /// the navigator is told while the screen is present.
    pub fn dismiss(&mut self, is_present: bool) -> (r: DismissAction)
        ensures
            final(self).dismissed,
            r == (if is_present {
                DismissAction::Dismiss
            } else {
                DismissAction::Remove
            }),
    {
        self.dismissed = true;
        if is_present {
            DismissAction::Dismiss
        } else {
            DismissAction::Remove
        }
    }
}

} // verus!
