//! Scrolling of the logs view.

use vstd::prelude::*;

verus! {

/// How far the logs view is scrolled, and how far it can be.
#[derive(Debug, Clone, Copy, Default)]
pub struct LogsState {
    pub scroll: u16,
    pub max_scroll: u16,
}

impl LogsState {
    /// One line down, unless at the bottom.
    pub fn scroll_down(&mut self)
        ensures
            final(self).max_scroll == old(self).max_scroll,
            final(self).scroll == if old(self).scroll < old(self).max_scroll {
                (old(self).scroll + 1) as u16
            } else {
                old(self).scroll
            },
    {
        if self.scroll < self.max_scroll {
            self.scroll += 1;
        }
    }

    /// One line up, unless at the top.
    pub fn scroll_up(&mut self)
        ensures
            final(self).max_scroll == old(self).max_scroll,
            final(self).scroll == if old(self).scroll > 0 {
                (old(self).scroll - 1) as u16
            } else {
                0u16
            },
    {
        self.scroll = self.scroll.saturating_sub(1);
    }

    /// To the bottom.
    pub fn scroll_to_bottom(&mut self)
        ensures
            final(self).max_scroll == old(self).max_scroll,
            final(self).scroll == old(self).max_scroll,
    {
        self.scroll = self.max_scroll;
    }
}

} // verus!
