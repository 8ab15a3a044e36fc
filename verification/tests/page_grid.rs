use identity::page_grid::{Orientation, PageGrid};

fn pages(grid: &PageGrid) -> Vec<u64> {
    (0..grid.n_pages()).map(|i| grid.nth_page(i)).collect()
}

#[test]
fn first_appended_page_is_selected() {
    let mut grid = PageGrid::new();
    assert_eq!(grid.n_pages(), 0);
    assert_eq!(grid.selected_page(), None);
    grid.append(10);
    grid.append(11);
    grid.append(12);
    assert_eq!(pages(&grid), vec![10, 11, 12]);
    assert_eq!(grid.selected_page(), Some(10));
    assert!(grid.contains(11));
    assert!(!grid.contains(13));
}

#[test]
fn closing_the_selected_page_selects_its_predecessor() {
    let mut grid = PageGrid::new();
    for p in [1, 2, 3] {
        grid.append(p);
    }
    grid.set_selected_page_(Some(3));
    grid.close_page(3);
    assert_eq!(pages(&grid), vec![1, 2]);
    assert_eq!(grid.selected_page(), Some(2));
}

#[test]
fn closing_the_first_selected_page_selects_its_successor() {
    let mut grid = PageGrid::new();
    for p in [1, 2, 3] {
        grid.append(p);
    }
    grid.close_page(1);
    assert_eq!(pages(&grid), vec![2, 3]);
    assert_eq!(grid.selected_page(), Some(2));
}

#[test]
fn closing_an_unselected_page_keeps_the_selection() {
    let mut grid = PageGrid::new();
    for p in [1, 2, 3] {
        grid.append(p);
    }
    grid.set_selected_page_(Some(3));
    grid.close_page(2);
    assert_eq!(pages(&grid), vec![1, 3]);
    assert_eq!(grid.selected_page(), Some(3));
    // A page that is not in the grid changes nothing.
    grid.close_page(42);
    assert_eq!(pages(&grid), vec![1, 3]);
    assert_eq!(grid.selected_page(), Some(3));
}

#[test]
fn closing_the_last_page_selects_nothing() {
    let mut grid = PageGrid::new();
    grid.append(5);
    grid.close_page(5);
    assert_eq!(grid.n_pages(), 0);
    assert_eq!(grid.selected_page(), None);
}

#[test]
fn appending_then_closing_restores_the_grid() {
    let mut grid = PageGrid::new();
    for p in [1, 2] {
        grid.append(p);
    }
    grid.set_selected_page_(Some(2));
    grid.append(3);
    grid.close_page(3);
    assert_eq!(pages(&grid), vec![1, 2]);
    assert_eq!(grid.selected_page(), Some(2));
}

#[test]
fn orientation_sets_the_css_class() {
    let mut grid = PageGrid::new();
    assert_eq!(grid.orientation(), Orientation::Horizontal);
    assert_eq!(grid.orientation_css_class(), "row");
    grid.set_orientation(Orientation::Vertical);
    assert_eq!(grid.orientation(), Orientation::Vertical);
    assert_eq!(grid.orientation_css_class(), "column");
}
