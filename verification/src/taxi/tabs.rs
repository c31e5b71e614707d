//! A bar of tabs, one of which is selected.

use vstd::prelude::*;

verus! {

/// The options of a screen: the title of its tab.
pub struct ScreenOptions {
    /// The title.
    pub title: String,
}

/// A tab of the tab bar.
pub struct TabBarItem {
    /// Whether this tab is the selected one.
    pub selected: bool,
    /// The title of this tab.
    pub title: String,
}

impl TabBarItem {
    /// Returns the tab at position `i` when the tab at position
    /// `selected_index` is selected.
    pub fn new(i: usize, selected_index: usize, title: String) -> (r: TabBarItem)
        ensures
            r.selected == (i == selected_index),
            r.title == title,
    {
        TabBarItem { selected: i == selected_index, title }
    }

    /// Returns the tint of this tab as a hexadecimal RGB color: blue when it
    /// is selected, grey otherwise.
    pub fn tint(&self) -> (r: u32)
        ensures
            r == (if self.selected {
                0x007AFFu32
            } else {
                0x8E8E93u32
            }),
    {
        if self.selected {
            0x007AFF
        } else {
            0x8E8E93
        }
    }
}

} // verus!
