//! A stack of screens in which the top screen is active and the one below
//! it stays visible in the background during transitions.

use vstd::prelude::*;
use crate::styles::{PositionType, Visibility};

verus! {

/// The screens of a stack navigator, from the first to the active one.
pub struct Stack<T> {
    screens: Vec<T>,
}

impl<T> Stack<T> {
    /// The screens, from the first to the active one.
    pub closed spec fn spec_screens(self) -> Seq<T> {
        self.screens@
    }

    /// A stack always holds at least one screen.
    pub open spec fn wf(self) -> bool {
        self.spec_screens().len() >= 1
    }

    /// Returns a stack that holds only the given screen.
    pub fn new(initial: T) -> (r: Stack<T>)
        ensures
            r.spec_screens() == seq![initial],
            r.wf(),
    {
        let mut screens = Vec::new();
        screens.push(initial);
        Stack { screens }
    }

    /// Pushes the given screen, which becomes the active screen.
    pub fn navigate(&mut self, screen: T)
        requires
            old(self).wf(),
        ensures
            final(self).wf(),
            final(self).spec_screens() == old(self).spec_screens().push(screen),
    {
        self.screens.push(screen);
    }

    /// Pops the active screen. The first screen is never popped: without it
    /// the navigator would have no screen to show.
    pub fn pop(&mut self)
        requires
            old(self).spec_screens().len() > 1,
        ensures
            final(self).wf(),
            final(self).spec_screens() == old(self).spec_screens().drop_last(),
    {
        self.screens.pop();
    }

    /// Handles a press of the back button: pops the active screen unless it
    /// is the first one.
    pub fn back_press(&mut self)
        requires
            old(self).wf(),
        ensures
            final(self).wf(),
            old(self).spec_screens().len() > 1 ==> final(self).spec_screens() == old(self).spec_screens().drop_last(),
            old(self).spec_screens().len() <= 1 ==> final(self).spec_screens() == old(self).spec_screens(),
    {
        if self.screens.len() > 1 {
            self.screens.pop();
        }
    }

    /// Returns the number of screens below the active one.
    pub fn depth(&self) -> (r: usize)
        requires
            self.wf(),
        ensures
            r == self.spec_screens().len() - 1,
    {
        self.screens.len() - 1
    }

    /// Returns the active screen.
    pub fn active(&self) -> (r: &T)
        requires
            self.wf(),
        ensures
            *r == self.spec_screens().last(),
    {
        &self.screens[self.screens.len() - 1]
    }

    /// Returns the screens, from the first to the active one.
    pub fn screens(&self) -> (r: &Vec<T>)
        ensures
            r@ == self.spec_screens(),
    {
        &self.screens
    }

    /// Returns the depth of the screen at position `i` with respect to the
    /// active screen: the active screen has depth 0.
    pub fn container_depth(&self, i: usize) -> (r: usize)
        requires
            i < self.spec_screens().len(),
        ensures
            r == self.spec_screens().len() - 1 - i,
    {
        self.depth() - i
    }

    /// Returns whether the navigation bar offers a back button: whenever a
    /// screen lies below the active one.
    pub fn has_back_button(&self) -> (r: bool)
        requires
            self.wf(),
        ensures
            r == (self.spec_screens().len() > 1),
    {
        self.depth() > 0
    }
}

/// Navigating to a screen and then popping it gives back the screens that
/// were there before.
pub proof fn navigate_then_pop_restores<T>(before: Stack<T>, pushed: Stack<T>, after: Stack<T>, screen: T)
    requires
        pushed.spec_screens() == before.spec_screens().push(screen),
        after.spec_screens() == pushed.spec_screens().drop_last(),
    ensures
        after.spec_screens() == before.spec_screens(),
{
    assert(before.spec_screens().push(screen).drop_last() =~= before.spec_screens());
}

/// After navigating to a screen, it is the active screen and the navigation
/// bar offers a way back.
pub proof fn navigated_screen_is_active<T>(before: Stack<T>, after: Stack<T>, screen: T)
    requires
        before.wf(),
        after.spec_screens() == before.spec_screens().push(screen),
    ensures
        after.wf(),
        after.spec_screens().last() == screen,
        after.spec_screens().len() > 1,
{
}

/// The animation state of a screen in a stack.
#[derive(Copy, Clone, Debug, Eq, PartialEq, Structural)]
pub enum ScreenState {
    /// The active screen.
    Foreground,
    /// The screen right below the active one.
    Background,
    /// Any screen further below.
    Idle,
}

/// A screen of a stack with its depth.
pub struct ScreenContainer<T> {
    /// The screen.
    pub screen: T,
    /// This is the depth of the screen with respect to the active screen.
    /// Specifically, the active screen has depth = 0, the background screen has
    /// depth 1. Any screen with depth > 1 should be hidden.
    pub depth: usize,
}

impl<T> ScreenContainer<T> {
    /// Returns the animation state of this screen by its depth.
    pub fn state(&self) -> (r: ScreenState)
        ensures
            r == (if self.depth == 0 {
                ScreenState::Foreground
            } else if self.depth == 1 {
                ScreenState::Background
            } else {
                ScreenState::Idle
            }),
    {
        if self.depth == 0 {
            ScreenState::Foreground
        } else if self.depth == 1 {
            ScreenState::Background
        } else {
            ScreenState::Idle
        }
    }

    /// Returns how this screen is laid out: the active screen relatively,
    /// the others absolutely (on top of each other).
    pub fn position(&self) -> (r: PositionType)
        ensures
            r == (if self.depth == 0 {
                PositionType::Relative
            } else {
                PositionType::Absolute
            }),
    {
        if self.depth == 0 {
            PositionType::Relative
        } else {
            PositionType::Absolute
        }
    }

    /// Returns whether this screen is drawn: screens deeper than the
    /// background screen are hidden.
    pub fn visibility(&self) -> (r: Visibility)
        ensures
            r == (if self.depth > 1 {
                Visibility::Hidden
            } else {
                Visibility::Visible
            }),
    {
        if self.depth > 1 {
            Visibility::Hidden
        } else {
            Visibility::Visible
        }
    }
}

} // verus!
