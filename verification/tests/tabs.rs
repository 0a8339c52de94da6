use optimization_lab::navigation::LabSelection;
use optimization_lab::tabs::TabManager;

#[test]
fn new_manager_shows_first_tab() {
    let m = TabManager::new(vec!["lab1", "lab2"]);
    assert_eq!(m.current_tab, 0);
    assert_eq!(m.tabs, vec!["lab1", "lab2"]);
}

#[test]
fn switch_tab_within_range() {
    let mut m = TabManager::new(vec!["lab1", "lab2"]);
    m.switch_tab(1);
    assert_eq!(m.current_tab, 1);
    m.switch_tab(1);
    assert_eq!(m.current_tab, 1);
    m.switch_tab(0);
    assert_eq!(m.current_tab, 0);
}

#[test]
fn switch_tab_out_of_range_is_ignored() {
    let mut m = TabManager::new(vec!["lab1", "lab2"]);
    m.switch_tab(1);
    m.switch_tab(2);
    assert_eq!(m.current_tab, 1);
    m.switch_tab(usize::MAX);
    assert_eq!(m.current_tab, 1);
}

#[test]
fn current_tab_gives_the_shown_tab_mutably() {
    let mut m = TabManager::new(vec![10, 20, 30]);
    m.switch_tab(2);
    *m.current_tab() += 1;
    assert_eq!(m.tabs, vec![10, 20, 31]);
    assert_eq!(*m.current_tab(), 31);
}

#[test]
fn choosing_a_lab_shows_its_tab() {
    let mut m = TabManager::new(vec!["lab1", "lab2"]);
    assert_eq!(LabSelection::Unselected.tab_index(), None);
    let i = LabSelection::Lab2.tab_index().unwrap();
    m.switch_tab(i);
    assert_eq!(m.current_tab, 1);
    let i = LabSelection::Lab1.tab_index().unwrap();
    m.switch_tab(i);
    assert_eq!(m.current_tab, 0);
}
