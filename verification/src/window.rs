//! Decisions of the main window about its pages: which tab a number key focuses, how pages
//! move into and out of the grid when the display mode changes, what closing a tab does, and
//! which page a playback source belongs to.

use vstd::prelude::*;

use crate::page_grid::{close_spec, grid_wf, PageGrid};

verus! {

/// The tab index that the number key `digit` focuses: keys `1` to `9` focus the first nine
/// tabs and `0` focuses the tenth.
pub open spec fn digit_tab_index(digit: int) -> int {
    (digit + 9) % 10
}

/// The tab index bound to the number key `digit` (`0` to `9`).
pub fn focus_tab_index_for_digit(digit: i32) -> (r: i32)
    requires
        0 <= digit < 10,
    ensures
        r as int == digit_tab_index(digit as int),
        0 <= r < 10,
{
    (digit + 9) % 10
}

/// Number keys focus tabs in keyboard order: `1` the first tab, each next key the next tab, up
/// to `9`, and `0` the tenth; no two keys focus the same tab.
pub proof fn law_number_keys_in_keyboard_order(d: int, e: int)
    requires
        0 <= d < 10,
        0 <= e < 10,
    ensures
        1 <= d ==> digit_tab_index(d) == d - 1,
        digit_tab_index(0) == 9,
        0 <= digit_tab_index(d) < 10,
        d != e ==> digit_tab_index(d) != digit_tab_index(e),
{
}

/// Selects the page at `index` in the grid when there is one; larger indices change nothing.
pub fn focus_tab(grid: &mut PageGrid, index: i32)
    requires
        0 <= index,
        old(grid).pages().len() <= i32::MAX,
    ensures
        final(grid).pages() == old(grid).pages(),
        index < old(grid).pages().len() ==> final(grid).selected() == Some(
            old(grid).pages()[index as int],
        ),
        index >= old(grid).pages().len() ==> final(grid).selected() == old(grid).selected(),
{
    if index < grid.n_pages() {
        let page = grid.nth_page(index);
        grid.set_selected_page_(Some(page));
    }
}

/// Removes every page from the grid, first to last, leaving nothing selected, and returns
/// them in display order.
pub fn take_all_pages(grid: &mut PageGrid) -> (r: Vec<u64>)
    requires
        old(grid).pages().len() <= i32::MAX,
    ensures
        r@ == old(grid).pages(),
        final(grid).pages() == Seq::<u64>::empty(),
        final(grid).selected() is None,
{
    let ghost all = grid.pages();
    grid.set_selected_page_(None);
    let n = grid.n_pages();
    let mut pages: Vec<u64> = Vec::new();
    let mut k: i32 = 0;
    while k < n
        invariant
            0 <= k <= n,
            n as int == all.len(),
            grid.pages() == all.skip(k as int),
            grid.selected() is None,
            grid_wf(grid.pages(), grid.selected()),
            pages@ == all.take(k as int),
        decreases n - k,
    {
        let ghost before = grid.pages();
        let page = grid.nth_page(0);
        proof {
            assert(before.contains(page));
            let j = before.index_of(page);
            assert(before[j] == before[0]);
        }
        grid.close_page(page);
        pages.push(page);
        proof {
            assert(before.remove(0) =~= all.skip(k + 1));
            assert(pages@ =~= all.take(k + 1));
        }
        k = k + 1;
    }
    proof {
        assert(all.take(n as int) =~= all);
        assert(all.skip(n as int) =~= Seq::<u64>::empty());
    }
    pages
}

/// Adds pages at the end of the grid in the given order, then selects `selected`.
pub fn append_pages(grid: &mut PageGrid, pages: Vec<u64>, selected: Option<u64>)
    requires
        (old(grid).pages() + pages@).no_duplicates(),
        selected matches Some(p) ==> (old(grid).pages() + pages@).contains(p),
    ensures
        final(grid).pages() == old(grid).pages() + pages@,
        final(grid).selected() == selected,
{
    let ghost start = grid.pages();
    let ghost all = start + pages@;
    let mut i: usize = 0;
    while i < pages.len()
        invariant
            0 <= i <= pages@.len(),
            all == start + pages@,
            all.no_duplicates(),
            grid.pages() == start + pages@.take(i as int),
        decreases pages@.len() - i,
    {
        let page = pages[i];
        proof {
            let cur = grid.pages();
            assert(cur =~= all.take(start.len() + i));
            assert(all[start.len() + i] == page);
            if cur.contains(page) {
                let j = choose|j: int| 0 <= j < cur.len() && cur[j] == page;
                assert(all[j] == all[start.len() + i]);
            }
        }
        grid.append(page);
        proof {
            assert(pages@.take(i + 1) =~= pages@.take(i as int).push(page));
        }
        i = i + 1;
    }
    proof {
        assert(pages@.take(pages@.len() as int) =~= pages@);
    }
    grid.set_selected_page_(selected);
}

/// Moving every page out of a grid and back in, with the same selection, gives back the
/// same pages in the same order with the same page selected: switching from a grid layout to
/// tabs and back keeps the pages and the selection. Here `taken` and `emptied` are what
/// `take_all_pages` ensures of its result and of the grid it leaves; the pages and selection
/// that `append_pages` then ensures are `emptied + taken` and `selected`, and its requirements
/// hold.
pub proof fn law_take_then_append_restores(
    pages: Seq<u64>,
    selected: Option<u64>,
    taken: Seq<u64>,
    emptied: Seq<u64>,
)
    requires
        grid_wf(pages, selected),
        taken == pages,
        emptied == Seq::<u64>::empty(),
    ensures
        (emptied + taken).no_duplicates(),
        selected matches Some(p) ==> (emptied + taken).contains(p),
        grid_wf(emptied + taken, selected),
        emptied + taken == pages,
{
    assert(emptied + taken =~= pages);
}

/// What closing a tab in the grid layouts does.
#[derive(Clone, Copy, Debug, PartialEq, Eq, Structural)]
pub enum GridCloseOutcome {
    /// The page was closed; `now_empty` tells whether no page is left.
    ClosedPage { page: u64, now_empty: bool },
    /// There was no page to close, so the window closes.
    CloseWindow,
}

/// Closes the page whose menu is open, else the selected page; without either, the window
/// closes.
pub fn close_tab_in_grid(grid: &mut PageGrid, menu_page: Option<u64>) -> (r: GridCloseOutcome)
    requires
        old(grid).pages().len() <= i32::MAX,
    ensures
        match (menu_page, old(grid).selected()) {
            (None, None) => r == GridCloseOutcome::CloseWindow && final(grid).pages() == old(
                grid,
            ).pages() && final(grid).selected() == old(grid).selected(),
            _ => {
                let target = match menu_page {
                    Some(p) => p,
                    None => old(grid).selected()->0,
                };
                let (np, ns) = close_spec(old(grid).pages(), old(grid).selected(), target);
                &&& final(grid).pages() == np
                &&& final(grid).selected() == ns
                &&& r == GridCloseOutcome::ClosedPage { page: target, now_empty: np.len() == 0 }
            },
        },
{
    let target = match menu_page {
        Some(p) => Some(p),
        None => grid.selected_page(),
    };
    match target {
        Some(page) => {
            grid.close_page(page);
            let now_empty = grid.n_pages() == 0;
            GridCloseOutcome::ClosedPage { page, now_empty }
        },
        None => GridCloseOutcome::CloseWindow,
    }
}

/// The first page whose playback source is `playbin`, given each page with its source.
pub open spec fn page_for_playbin(pages: Seq<(u64, Option<u64>)>, playbin: u64) -> Option<u64>
    decreases pages.len(),
{
    if pages.len() == 0 {
        None
    } else if pages[0].1 == Some(playbin) {
        Some(pages[0].0)
    } else {
        page_for_playbin(pages.drop_first(), playbin)
    }
}

/// Finds the page whose playback source is `playbin`.
pub fn find_page_for_playbin(pages: &Vec<(u64, Option<u64>)>, playbin: u64) -> (r: Option<u64>)
    ensures
        r == page_for_playbin(pages@, playbin),
{
    let mut i: usize = 0;
    assert(pages@.skip(0) =~= pages@);
    while i < pages.len()
        invariant
            0 <= i <= pages@.len(),
            page_for_playbin(pages@, playbin) == page_for_playbin(pages@.skip(i as int), playbin),
        decreases pages@.len() - i,
    {
        proof {
            assert(pages@.skip(i as int).drop_first() =~= pages@.skip(i + 1));
        }
        let (page, source) = pages[i];
        if source == Some(playbin) {
            return Some(page);
        }
        i = i + 1;
    }
    None
}

/// The page found for a playback source is the first page, in order, whose source it is:
/// `Some(p)` exactly when some page `i` is `p` with that source and no page before `i` has it,
/// and `None` exactly when no page has it.
pub proof fn law_first_page_with_the_source_is_found(pages: Seq<(u64, Option<u64>)>, playbin: u64)
    ensures
        forall|p: u64|
            page_for_playbin(pages, playbin) == Some(p) <==> exists|i: int|
                0 <= i < pages.len() && pages[i] == (p, Some(playbin)) && forall|j: int|
                    0 <= j < i ==> #[trigger] pages[j].1 != Some(playbin),
        page_for_playbin(pages, playbin) is None <==> forall|i: int|
            0 <= i < pages.len() ==> #[trigger] pages[i].1 != Some(playbin),
    decreases pages.len(),
{
    if pages.len() > 0 {
        let rest = pages.drop_first();
        law_first_page_with_the_source_is_found(rest, playbin);
        assert forall|p: u64|
            page_for_playbin(pages, playbin) == Some(p) <==> exists|i: int|
                0 <= i < pages.len() && pages[i] == (p, Some(playbin)) && forall|j: int|
                    0 <= j < i ==> #[trigger] pages[j].1 != Some(playbin) by {
            if page_for_playbin(pages, playbin) == Some(p) {
                if pages[0].1 == Some(playbin) {
                    assert(pages[0] == (p, Some(playbin)));
                } else {
                    let k = choose|k: int|
                        0 <= k < rest.len() && rest[k] == (p, Some(playbin)) && forall|j: int|
                            0 <= j < k ==> #[trigger] rest[j].1 != Some(playbin);
                    assert(pages[k + 1] == rest[k]);
                    assert forall|j: int| 0 <= j < k + 1 implies #[trigger] pages[j].1 != Some(
                        playbin,
                    ) by {
                        if j > 0 {
                            assert(pages[j] == rest[j - 1]);
                        }
                    }
                }
            }
            if exists|i: int|
                0 <= i < pages.len() && pages[i] == (p, Some(playbin)) && forall|j: int|
                    0 <= j < i ==> #[trigger] pages[j].1 != Some(playbin) {
                let i = choose|i: int|
                    0 <= i < pages.len() && pages[i] == (p, Some(playbin)) && forall|j: int|
                        0 <= j < i ==> #[trigger] pages[j].1 != Some(playbin);
                if i == 0 {
                } else {
                    assert(pages[0].1 != Some(playbin));
                    assert(rest[i - 1] == pages[i]);
                    assert forall|j: int| 0 <= j < i - 1 implies #[trigger] rest[j].1 != Some(
                        playbin,
                    ) by {
                        assert(rest[j] == pages[j + 1]);
                    }
                }
            }
        }
        assert(page_for_playbin(pages, playbin) is None <==> forall|i: int|
            0 <= i < pages.len() ==> #[trigger] pages[i].1 != Some(playbin)) by {
            if page_for_playbin(pages, playbin) is None {
                assert(pages[0].1 != Some(playbin));
                assert forall|i: int| 0 <= i < pages.len() implies #[trigger] pages[i].1 != Some(
                    playbin,
                ) by {
                    if i > 0 {
                        assert(pages[i] == rest[i - 1]);
                    }
                }
            } else {
                if pages[0].1 != Some(playbin) {
                    let k = choose|k: int| 0 <= k < rest.len() && #[trigger] rest[k].1 == Some(playbin);
                    assert(pages[k + 1] == rest[k]);
                }
            }
        }
    }
}

/// What the window does when a page joins it.
#[derive(Clone, Copy, Debug, PartialEq, Eq, Structural)]
pub enum PageAttachAction {
    /// The page failed to load: show it right away.
    ShowContent,
    /// The page plays media: hand its source to the player, then show it.
    AttachSourceAndShow,
    /// The page is still loading: wait until it is done.
    WaitForLoad,
}

/// Chooses what to do with a page that joins the window.
pub fn page_attach_action(is_error: bool, has_playbin: bool) -> (r: PageAttachAction)
    ensures
        r == (if is_error {
            PageAttachAction::ShowContent
        } else if has_playbin {
            PageAttachAction::AttachSourceAndShow
        } else {
            PageAttachAction::WaitForLoad
        }),
{
    if is_error {
        PageAttachAction::ShowContent
    } else if has_playbin {
        PageAttachAction::AttachSourceAndShow
    } else {
        PageAttachAction::WaitForLoad
    }
}

} // verus!
