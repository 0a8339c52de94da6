//! Which lab the user has opened.
use vstd::prelude::*;
use crate::tabs::TabManager;

verus! {

/// The lab chosen in the navigation panel.
#[derive(Clone, Copy, Debug, PartialEq, Eq, Structural)]
pub enum LabSelection {
    /// Nothing chosen yet: a welcome text is shown.
    Unselected,
    /// The one-dimensional search methods.
    Lab1,
    /// The Hooke-Jeeves method.
    Lab2,
}

impl LabSelection {
    /// The index of the tab that shows the lab, if a lab is chosen.
    pub open spec fn spec_tab_index(self) -> Option<usize> {
        match self {
            LabSelection::Unselected => None,
            LabSelection::Lab1 => Some(0usize),
            LabSelection::Lab2 => Some(1usize),
        }
    }

    /// The index of the tab that shows the lab, if a lab is chosen.
    pub fn tab_index(self) -> (i: Option<usize>)
        ensures
            i == self.spec_tab_index(),
            self == LabSelection::Unselected ==> i is None,
            self == LabSelection::Lab1 ==> i == Some(0usize),
            self == LabSelection::Lab2 ==> i == Some(1usize),
    {
        match self {
            LabSelection::Unselected => None,
            LabSelection::Lab1 => Some(0),
            LabSelection::Lab2 => Some(1),
        }
    }
}

/// Choosing a lab in the navigation panel shows its tab, whenever the
/// manager holds both labs' tabs.
pub proof fn lemma_choosing_lab_shows_its_tab<T>(m: TabManager<T>, lab: LabSelection)
    requires
        m.wf(),
        m.tabs.len() >= 2,
        lab != LabSelection::Unselected,
    ensures
        lab.spec_tab_index() matches Some(i) && m.after_switch(i).current_tab == i
            && m.after_switch(i).wf(),
{
}

} // verus!
