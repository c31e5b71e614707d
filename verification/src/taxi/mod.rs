//! Navigation between screens: a stack of pushed screens, a stack of modal
//! screens and a bar of tabs.

pub mod stack;
pub mod modal;
pub mod tabs;

pub use stack::{ScreenContainer, ScreenState, Stack};
pub use modal::{DismissAction, ModalContainer, ModalStack};
pub use tabs::{ScreenOptions, TabBarItem};
