//! The row/column grid of pages: which pages it shows, in which order, and which one is
//! selected. Pages are identified by a number that the widget layer assigns to each page.

use vstd::prelude::*;

verus! {

/// The direction in which the grid lays out its pages.
#[derive(Clone, Copy, Debug, PartialEq, Eq, Structural)]
pub enum Orientation {
    Horizontal,
    Vertical,
}

/// A grid state is well formed when no page occurs twice and the selected page, if any, is
/// one of the pages.
pub open spec fn grid_wf(pages: Seq<u64>, selected: Option<u64>) -> bool {
    &&& pages.no_duplicates()
    &&& (selected matches Some(p) ==> pages.contains(p))
}

/// The page that becomes selected when the page at `idx` closes: its predecessor, else its
/// successor, else none.
pub open spec fn neighbor(pages: Seq<u64>, idx: int) -> Option<u64> {
    if idx > 0 {
        Some(pages[idx - 1])
    } else if idx + 1 < pages.len() {
        Some(pages[idx + 1])
    } else {
        None
    }
}

/// Pages and selection after appending `page`: it goes last, and it becomes selected when
/// nothing was.
pub open spec fn append_spec(pages: Seq<u64>, selected: Option<u64>, page: u64) -> (
    Seq<u64>,
    Option<u64>,
) {
    (pages.push(page), if selected is None {
        Some(page)
    } else {
        selected
    })
}

/// Pages and selection after closing `page`: it leaves the sequence, and when it was selected
/// its neighbor becomes selected. Closing a page that is not in the grid changes nothing.
pub open spec fn close_spec(pages: Seq<u64>, selected: Option<u64>, page: u64) -> (
    Seq<u64>,
    Option<u64>,
) {
    if pages.contains(page) {
        let i = pages.index_of(page);
        (pages.remove(i), if selected == Some(page) {
            neighbor(pages, i)
        } else {
            selected
        })
    } else {
        (pages, selected)
    }
}

/// The CSS class that the grid carries for an orientation.
pub open spec fn orientation_class(o: Orientation) -> Seq<char> {
    match o {
        Orientation::Horizontal => "row"@,
        Orientation::Vertical => "column"@,
    }
}

/// The pages of a row or column layout, in display order, with the selected one.
#[derive(Debug)]
pub struct PageGrid {
    pages: Vec<u64>,
    selected: Option<u64>,
    orientation: Orientation,
}

impl PageGrid {
    #[verifier::type_invariant]
    spec fn inv(self) -> bool {
        grid_wf(self.pages@, self.selected)
    }

    /// The pages in display order.
    pub closed spec fn pages(&self) -> Seq<u64> {
        self.pages@
    }

    /// The selected page.
    pub closed spec fn selected(&self) -> Option<u64> {
        self.selected
    }

    /// The layout direction.
    pub closed spec fn orientation_spec(&self) -> Orientation {
        self.orientation
    }

    /// An empty grid in a row layout.
    pub fn new() -> (r: PageGrid)
        ensures
            r.pages() == Seq::<u64>::empty(),
            r.selected() is None,
            r.orientation_spec() == Orientation::Horizontal,
            grid_wf(r.pages(), r.selected()),
    {
        PageGrid { pages: Vec::new(), selected: None, orientation: Orientation::Horizontal }
    }

    /// Whether `page` is shown in the grid.
    pub fn contains(&self, page: u64) -> (r: bool)
        ensures
            r == self.pages().contains(page),
    {
        let mut i: usize = 0;
        while i < self.pages.len()
            invariant
                0 <= i <= self.pages@.len(),
                forall|j: int| 0 <= j < i ==> self.pages@[j] != page,
            decreases self.pages@.len() - i,
        {
            if self.pages[i] == page {
                return true;
            }
            i = i + 1;
        }
        false
    }

    /// Adds a page at the end; it becomes selected when no page was.
    pub fn append(&mut self, page: u64)
        requires
            !old(self).pages().contains(page),
        ensures
            (final(self).pages(), final(self).selected()) == append_spec(
                old(self).pages(),
                old(self).selected(),
                page,
            ),
            final(self).orientation_spec() == old(self).orientation_spec(),
            grid_wf(final(self).pages(), final(self).selected()),
    {
        proof {
            use_type_invariant(&*self);
        }
        let mut pages = self.pages.clone();
        assert(pages@ == self.pages@);
        pages.push(page);
        let selected = if self.selected.is_none() {
            Some(page)
        } else {
            self.selected
        };
        proof {
            assert forall|i: int, j: int|
                0 <= i < pages@.len() && 0 <= j < pages@.len() && i != j implies pages@[i]
                != pages@[j] by {
                if i < old(self).pages@.len() && j < old(self).pages@.len() {
                } else if i == old(self).pages@.len() {
                    assert(pages@[j] == old(self).pages@[j]);
                    if old(self).pages@[j] == page {
                        assert(old(self).pages@.contains(page));
                    }
                } else {
                    assert(pages@[i] == old(self).pages@[i]);
                    if old(self).pages@[i] == page {
                        assert(old(self).pages@.contains(page));
                    }
                }
            }
            assert(pages@[pages@.len() - 1] == page);
            if let Some(p) = old(self).selected {
                let k = choose|k: int| 0 <= k < old(self).pages@.len() && old(self).pages@[k] == p;
                assert(pages@[k] == p);
            }
        }
        *self = PageGrid { pages, selected, orientation: self.orientation };
    }

    /// The number of pages.
    pub fn n_pages(&self) -> (r: i32)
        requires
            self.pages().len() <= i32::MAX,
        ensures
            r as int == self.pages().len(),
            grid_wf(self.pages(), self.selected()),
    {
        proof {
            use_type_invariant(self);
        }
        self.pages.len() as i32
    }

    /// The page at position `n`.
    pub fn nth_page(&self, n: i32) -> (r: u64)
        requires
            0 <= n < self.pages().len(),
        ensures
            r == self.pages()[n as int],
    {
        self.pages[n as usize]
    }

    /// The position of `page` in the grid, if it is shown.
    fn position(&self, page: u64) -> (r: Option<usize>)
        ensures
            match r {
                Some(i) => i < self.pages().len() && self.pages()[i as int] == page
                    && self.pages().index_of(page) == i as int,
                None => !self.pages().contains(page),
            },
    {
        proof {
            use_type_invariant(self);
        }
        let mut i: usize = 0;
        while i < self.pages.len()
            invariant
                0 <= i <= self.pages@.len(),
                grid_wf(self.pages@, self.selected),
                forall|j: int| 0 <= j < i ==> self.pages@[j] != page,
            decreases self.pages@.len() - i,
        {
            if self.pages[i] == page {
                proof {
                    assert(self.pages@.contains(page));
                    let k = self.pages@.index_of(page);
                    assert(self.pages@[k] == self.pages@[i as int]);
                }
                return Some(i);
            }
            i = i + 1;
        }
        None
    }

    /// Removes a page; when it was selected, its predecessor (else its successor) becomes
    /// selected.
    pub fn close_page(&mut self, page: u64)
        ensures
            (final(self).pages(), final(self).selected()) == close_spec(
                old(self).pages(),
                old(self).selected(),
                page,
            ),
            final(self).orientation_spec() == old(self).orientation_spec(),
            grid_wf(final(self).pages(), final(self).selected()),
    {
        proof {
            use_type_invariant(&*self);
        }
        let idx = match self.position(page) {
            Some(i) => i,
            None => {
                return ;
            },
        };
        let ghost old_pages = self.pages@;
        let new_selection = if idx > 0 {
            Some(self.pages[idx - 1])
        } else if idx + 1 < self.pages.len() {
            Some(self.pages[idx + 1])
        } else {
            None
        };
        let mut pages = self.pages.clone();
        pages.remove(idx);
        let selected = if self.selected == Some(page) {
            new_selection
        } else {
            self.selected
        };
        proof {
            old_pages.remove_ensures(idx as int);
            assert forall|i: int, j: int|
                0 <= i < pages@.len() && 0 <= j < pages@.len() && i != j implies pages@[i]
                != pages@[j] by {
                let oi = if i < idx {
                    i
                } else {
                    i + 1
                };
                let oj = if j < idx {
                    j
                } else {
                    j + 1
                };
                assert(pages@[i] == old_pages[oi]);
                assert(pages@[j] == old_pages[oj]);
            }
            if let Some(s) = selected {
                if self.selected == Some(page) {
                    if idx > 0 {
                        assert(pages@[idx - 1] == s);
                    } else {
                        assert(pages@[idx as int] == s);
                    }
                } else {
                    let k = choose|k: int| 0 <= k < old_pages.len() && old_pages[k] == s;
                    assert(k != idx);
                    if k < idx {
                        assert(pages@[k] == s);
                    } else {
                        assert(pages@[k - 1] == s);
                    }
                }
            }
        }
        *self = PageGrid { pages, selected, orientation: self.orientation };
    }

    /// Selects a page of the grid, or none.
    pub fn set_selected_page_(&mut self, value: Option<u64>)
        requires
            value matches Some(p) ==> old(self).pages().contains(p),
        ensures
            final(self).pages() == old(self).pages(),
            final(self).selected() == value,
            final(self).orientation_spec() == old(self).orientation_spec(),
            grid_wf(final(self).pages(), final(self).selected()),
    {
        proof {
            use_type_invariant(&*self);
        }
        let pages = self.pages.clone();
        *self = PageGrid { pages, selected: value, orientation: self.orientation };
    }

    /// The selected page.
    pub fn selected_page(&self) -> (r: Option<u64>)
        ensures
            r == self.selected(),
            grid_wf(self.pages(), self.selected()),
    {
        proof {
            use_type_invariant(self);
        }
        self.selected
    }

    /// Sets the layout direction.
    pub fn set_orientation(&mut self, value: Orientation)
        ensures
            final(self).pages() == old(self).pages(),
            final(self).selected() == old(self).selected(),
            final(self).orientation_spec() == value,
            grid_wf(final(self).pages(), final(self).selected()),
    {
        proof {
            use_type_invariant(&*self);
        }
        let pages = self.pages.clone();
        *self = PageGrid { pages, selected: self.selected, orientation: value };
    }

    /// The layout direction.
    pub fn orientation(&self) -> (r: Orientation)
        ensures
            r == self.orientation_spec(),
    {
        self.orientation
    }

    /// The CSS class for the current layout direction: `row` or `column`.
    pub fn orientation_css_class(&self) -> (r: &'static str)
        ensures
            r@ == orientation_class(self.orientation_spec()),
    {
        match self.orientation {
            Orientation::Horizontal => "row",
            Orientation::Vertical => "column",
        }
    }
}

/// Appending a page that is not yet shown keeps the grid well formed.
pub proof fn law_append_keeps_wf(pages: Seq<u64>, selected: Option<u64>, page: u64)
    requires
        grid_wf(pages, selected),
        !pages.contains(page),
    ensures
        grid_wf(append_spec(pages, selected, page).0, append_spec(pages, selected, page).1),
{
    let (np, ns) = append_spec(pages, selected, page);
    assert forall|i: int, j: int| 0 <= i < np.len() && 0 <= j < np.len() && i != j implies np[i]
        != np[j] by {
        if i == pages.len() && np[j] == page {
            assert(pages[j] == page);
        }
        if j == pages.len() && np[i] == page {
            assert(pages[i] == page);
        }
    }
    if let Some(p) = ns {
        if selected is None {
            assert(np[pages.len() as int] == p);
        } else {
            let k = choose|k: int| 0 <= k < pages.len() && pages[k] == p;
            assert(np[k] == p);
        }
    }
}

/// Closing the page at position `i` leaves the other pages in their order. When it was the
/// selected page, the page before it becomes selected, or the one after it when it was the
/// first, or none when it was the only page; otherwise the selection stays.
pub proof fn law_close_selects_the_neighbor(pages: Seq<u64>, selected: Option<u64>, i: int)
    requires
        grid_wf(pages, selected),
        0 <= i < pages.len(),
    ensures
        close_spec(pages, selected, pages[i]).0 == pages.subrange(0, i) + pages.subrange(
            i + 1,
            pages.len() as int,
        ),
        selected == Some(pages[i]) && i > 0 ==> close_spec(pages, selected, pages[i]).1 == Some(
            pages[i - 1],
        ),
        selected == Some(pages[i]) && i == 0 && pages.len() > 1 ==> close_spec(
            pages,
            selected,
            pages[i],
        ).1 == Some(pages[1]),
        selected == Some(pages[i]) && pages.len() == 1 ==> close_spec(pages, selected, pages[i]).1
            is None,
        selected != Some(pages[i]) ==> close_spec(pages, selected, pages[i]).1 == selected,
{
    let page = pages[i];
    assert(pages.contains(page));
    let k = pages.index_of(page);
    assert(pages[k] == page);
    assert(k == i);
    assert(pages.remove(i) =~= pages.subrange(0, i) + pages.subrange(i + 1, pages.len() as int));
}

/// Appending a page puts it after all the others, which keep their order; it becomes selected
/// only when nothing was.
pub proof fn law_append_goes_last(pages: Seq<u64>, selected: Option<u64>, page: u64)
    ensures
        append_spec(pages, selected, page).0.len() == pages.len() + 1,
        append_spec(pages, selected, page).0.last() == page,
        append_spec(pages, selected, page).0.subrange(0, pages.len() as int) == pages,
        selected is None ==> append_spec(pages, selected, page).1 == Some(page),
        selected is Some ==> append_spec(pages, selected, page).1 == selected,
{
    assert(pages.push(page).subrange(0, pages.len() as int) =~= pages);
}

/// Closing a page keeps the grid well formed, and the page is no longer shown afterwards.
pub proof fn law_close_keeps_wf(pages: Seq<u64>, selected: Option<u64>, page: u64)
    requires
        grid_wf(pages, selected),
    ensures
        grid_wf(close_spec(pages, selected, page).0, close_spec(pages, selected, page).1),
        !close_spec(pages, selected, page).0.contains(page),
        close_spec(pages, selected, page).1 != Some(page),
{
    if pages.contains(page) {
        let i = pages.index_of(page);
        let np = pages.remove(i);
        pages.remove_ensures(i);
        assert forall|a: int, b: int| 0 <= a < np.len() && 0 <= b < np.len() && a != b implies np[a]
            != np[b] by {
            let oa = if a < i { a } else { a + 1 };
            let ob = if b < i { b } else { b + 1 };
            assert(np[a] == pages[oa]);
            assert(np[b] == pages[ob]);
        }
        assert forall|k: int| 0 <= k < np.len() implies np[k] != page by {
            let ok = if k < i { k } else { k + 1 };
            assert(np[k] == pages[ok]);
        }
        let ns = close_spec(pages, selected, page).1;
        if let Some(s) = ns {
            if selected == Some(page) {
                if i > 0 {
                    assert(np[i - 1] == s);
                } else {
                    assert(np[i] == s);
                }
            } else {
                let k = choose|k: int| 0 <= k < pages.len() && pages[k] == s;
                assert(k != i);
                if k < i {
                    assert(np[k] == s);
                } else {
                    assert(np[k - 1] == s);
                }
            }
        }
    }
}

/// While pages remain after closing the selected page, one of them is selected.
pub proof fn law_close_selected_keeps_a_selection(pages: Seq<u64>, page: u64)
    requires
        grid_wf(pages, Some(page)),
        pages.len() >= 2,
    ensures
        close_spec(pages, Some(page), page).1 is Some,
        close_spec(pages, Some(page), page).0.len() == pages.len() - 1,
{
    let i = pages.index_of(page);
    assert(pages[i] == page);
    pages.remove_ensures(i);
}

/// Closing a page that was just appended restores the pages, and restores the selection when
/// some page was selected before.
pub proof fn law_close_undoes_append(pages: Seq<u64>, selected: Option<u64>, page: u64)
    requires
        grid_wf(pages, selected),
        !pages.contains(page),
    ensures
        close_spec(append_spec(pages, selected, page).0, append_spec(pages, selected, page).1, page).0
            == pages,
        selected is Some ==> close_spec(
            append_spec(pages, selected, page).0,
            append_spec(pages, selected, page).1,
            page,
        ).1 == selected,
{
    let np = pages.push(page);
    law_append_keeps_wf(pages, selected, page);
    assert(np[pages.len() as int] == page);
    let k = np.index_of(page);
    assert(np[k] == np[pages.len() as int]);
    assert(k == pages.len());
    assert(np.remove(k) =~= pages);
    if let Some(s) = selected {
        assert(s != page);
    }
}

} // verus!
