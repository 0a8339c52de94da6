//! The list of lab tabs and which one is shown.
use vstd::prelude::*;

verus! {

/// Holds the tabs of the application and the index of the one shown.
///
/// The tabs themselves are drawn by the user interface; the manager only
/// decides which one is current.
pub struct TabManager<T> {
    pub tabs: Vec<T>,
    pub current_tab: usize,
}

impl<T> TabManager<T> {
    /// The shown tab is one of the tabs.
    pub open spec fn wf(&self) -> bool {
        self.current_tab < self.tabs.len()
    }

    /// A manager over the given tabs that shows the first one.
    pub fn new(tabs: Vec<T>) -> (m: Self)
        requires
            tabs.len() > 0,
        ensures
            m.tabs@ == tabs@,
            m.current_tab == 0,
            m.wf(),
    {
        TabManager { tabs, current_tab: 0 }
    }

    /// The tab that is shown.
    pub fn current_tab(&mut self) -> (tab: &mut T)
        requires
            old(self).wf(),
        ensures
            *tab == old(self).tabs@[old(self).current_tab as int],
            final(self).current_tab == old(self).current_tab,
            final(self).tabs@ == old(self).tabs@.update(old(self).current_tab as int, *final(tab)),
    {
        &mut self.tabs[self.current_tab]
    }

    /// The manager after a request to show the tab at `tab_id`: that tab when
    /// there is one, otherwise the tab shown before.
    pub open spec fn after_switch(self, tab_id: usize) -> Self {
        TabManager {
            tabs: self.tabs,
            current_tab: if tab_id < self.tabs.len() {
                tab_id
            } else {
                self.current_tab
            },
        }
    }

    /// Shows the tab at `tab_id` when there is one; otherwise nothing changes.
    pub fn switch_tab(&mut self, tab_id: usize)
        ensures
            *final(self) == old(self).after_switch(tab_id),
    {
        if tab_id < self.tabs.len() {
            self.current_tab = tab_id;
        }
    }
}

/// Switching tabs keeps the shown tab one of the tabs, shows the requested
/// tab whenever it exists, and asking for the same tab twice changes nothing more.
pub proof fn lemma_switch_tab<T>(m: TabManager<T>, tab_id: usize)
    requires
        m.wf(),
    ensures
        m.after_switch(tab_id).wf(),
        m.after_switch(tab_id).tabs == m.tabs,
        tab_id < m.tabs.len() ==> m.after_switch(tab_id).current_tab == tab_id,
        tab_id >= m.tabs.len() ==> m.after_switch(tab_id) == m,
        m.after_switch(tab_id).after_switch(tab_id) == m.after_switch(tab_id),
{
}

} // verus!
