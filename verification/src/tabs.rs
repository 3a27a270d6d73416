//! The tab bar: one title per note and a cursor that wraps around.

use vstd::arithmetic::div_mod::{
    lemma_add_mod_noop_right, lemma_mod_bound, lemma_mod_self_0, lemma_small_mod,
};
use vstd::prelude::*;

verus! {

/// The mathematical model of the tab bar.
#[verifier::ext_equal]
pub struct TabsView {
    pub titles: Seq<Seq<char>>,
    pub index: int,
}

impl TabsView {
    /// The active tab is one of the bar, or 0 while the bar is empty.
    pub open spec fn wf(self) -> bool {
        crate::list::cursor_valid(self.titles.len() as int, self.index)
    }

    /// One tab to the right, from the last tab round to the first.
    pub open spec fn next(self) -> Self {
        if self.titles.len() > 0 {
            TabsView { index: (self.index + 1) % (self.titles.len() as int), ..self }
        } else {
            self
        }
    }

    /// One tab to the left, from the first tab round to the last.
    pub open spec fn previous(self) -> Self {
        if self.titles.len() > 0 {
            if self.index > 0 {
                TabsView { index: self.index - 1, ..self }
            } else {
                TabsView { index: self.titles.len() - 1, ..self }
            }
        } else {
            self
        }
    }
}

/// The titles of the tabs and the index of the active one.
#[derive(Clone, Debug)]
pub struct TabsState {
    pub titles: Vec<String>,
    pub index: usize,
}

/// The model of the tab bar: the texts of its titles and the active index.
impl View for TabsState {
    type V = TabsView;

    open spec fn view(&self) -> TabsView {
        TabsView { titles: crate::strings::texts(self.titles@), index: self.index as int }
    }
}

impl TabsState {
    /// The active tab is one of the bar, or 0 while the bar is empty.
    pub open spec fn wf(&self) -> bool {
        self@.wf()
    }

    /// A bar of the given titles with the first tab active.
    pub fn new(titles: Vec<String>) -> (tabs: TabsState)
        ensures
            tabs.titles == titles,
            tabs.index == 0,
            tabs.wf(),
    {
        TabsState { titles, index: 0 }
    }

    /// Activates the next tab, the first one after the last. An empty bar
    /// stays as it is.
    pub fn next(&mut self)
        ensures
            final(self)@ == old(self)@.next(),
            final(self).titles == old(self).titles,
            old(self).wf() ==> final(self).wf(),
    {
        let len: usize = self.titles.len();
        if len > 0 {
            proof {
                lemma_add_mod_noop_right(1, self.index as int, len as int);
                lemma_mod_bound(self.index as int, len as int);
                lemma_mod_bound(self.index + 1, len as int);
            }
            self.index = (self.index % len + 1) % len;
        }
    }

    /// Activates the tab before, the last one before the first. An empty bar
    /// stays as it is.
    pub fn previous(&mut self)
        ensures
            final(self)@ == old(self)@.previous(),
            final(self).titles == old(self).titles,
            old(self).wf() ==> final(self).wf(),
    {
        if self.titles.len() != 0 {
            if self.index > 0 {
                self.index -= 1;
            } else {
                self.index = self.titles.len() - 1;
            }
        }
    }
}

/// Within the bar, one step to the right lands on the next tab, and on the
/// first tab from the last one.
pub proof fn lemma_next_wraps(tabs: TabsView)
    requires
        tabs.wf(),
        tabs.titles.len() > 0,
    ensures
        tabs.next().index == if tabs.index + 1 < tabs.titles.len() {
            tabs.index + 1
        } else {
            0
        },
        tabs.next().wf(),
{
    let len = tabs.titles.len() as int;
    if tabs.index + 1 < len {
        lemma_small_mod((tabs.index + 1) as nat, len as nat);
    } else {
        lemma_mod_self_0(len);
    }
}

/// Stepping right and then left, or left and then right, returns to the
/// same tab.
pub proof fn lemma_tabs_round_trip(tabs: TabsView)
    requires
        tabs.wf(),
    ensures
        tabs.next().previous() == tabs,
        tabs.previous().next() == tabs,
{
    if tabs.titles.len() > 0 {
        lemma_next_wraps(tabs);
        lemma_next_wraps(tabs.previous());
    }
}

} // verus!
