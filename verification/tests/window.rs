use identity::page_grid::PageGrid;
use identity::window::{
    append_pages, close_tab_in_grid, find_page_for_playbin, focus_tab,
    focus_tab_index_for_digit, page_attach_action, take_all_pages, GridCloseOutcome,
    PageAttachAction,
};

fn grid_of(pages: &[u64]) -> PageGrid {
    let mut grid = PageGrid::new();
    for &p in pages {
        grid.append(p);
    }
    grid
}

#[test]
fn number_keys_focus_tabs() {
    assert_eq!(focus_tab_index_for_digit(1), 0);
    assert_eq!(focus_tab_index_for_digit(9), 8);
    assert_eq!(focus_tab_index_for_digit(0), 9);
}

#[test]
fn focus_tab_selects_existing_pages_only() {
    let mut grid = grid_of(&[4, 5, 6]);
    focus_tab(&mut grid, 2);
    assert_eq!(grid.selected_page(), Some(6));
    focus_tab(&mut grid, 3);
    assert_eq!(grid.selected_page(), Some(6));
    focus_tab(&mut grid, 0);
    assert_eq!(grid.selected_page(), Some(4));
}

#[test]
fn switching_layouts_keeps_pages_and_selection() {
    let mut grid = grid_of(&[4, 5, 6]);
    grid.set_selected_page_(Some(5));
    let taken = take_all_pages(&mut grid);
    assert_eq!(taken, vec![4, 5, 6]);
    assert_eq!(grid.n_pages(), 0);
    assert_eq!(grid.selected_page(), None);
    append_pages(&mut grid, taken, Some(5));
    assert_eq!((0..3).map(|i| grid.nth_page(i)).collect::<Vec<_>>(), vec![4, 5, 6]);
    assert_eq!(grid.selected_page(), Some(5));
}

#[test]
fn appending_with_no_selection_clears_it() {
    let mut grid = PageGrid::new();
    append_pages(&mut grid, vec![1, 2], None);
    assert_eq!(grid.n_pages(), 2);
    assert_eq!(grid.selected_page(), None);
}

#[test]
fn closing_tabs_in_the_grid() {
    let mut grid = grid_of(&[1, 2]);
    assert_eq!(
        close_tab_in_grid(&mut grid, None),
        GridCloseOutcome::ClosedPage { page: 1, now_empty: false }
    );
    assert_eq!(grid.selected_page(), Some(2));
    assert_eq!(
        close_tab_in_grid(&mut grid, Some(2)),
        GridCloseOutcome::ClosedPage { page: 2, now_empty: true }
    );
    assert_eq!(close_tab_in_grid(&mut grid, None), GridCloseOutcome::CloseWindow);
}

#[test]
fn playbins_find_their_first_page() {
    let pages = vec![(1, None), (2, Some(20)), (3, Some(30)), (4, Some(20))];
    assert_eq!(find_page_for_playbin(&pages, 20), Some(2));
    assert_eq!(find_page_for_playbin(&pages, 30), Some(3));
    assert_eq!(find_page_for_playbin(&pages, 40), None);
    assert_eq!(find_page_for_playbin(&vec![], 40), None);
}

#[test]
fn attaching_pages() {
    assert_eq!(page_attach_action(true, true), PageAttachAction::ShowContent);
    assert_eq!(page_attach_action(true, false), PageAttachAction::ShowContent);
    assert_eq!(page_attach_action(false, true), PageAttachAction::AttachSourceAndShow);
    assert_eq!(page_attach_action(false, false), PageAttachAction::WaitForLoad);
}
