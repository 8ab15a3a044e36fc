//! How the window shows its pages: as tabs, in a row, or in a column.

use vstd::prelude::*;

use crate::page_grid::Orientation;
use crate::text::str_eq;

verus! {

/// The layout of the pages in a window.
#[derive(Clone, Copy, Debug, PartialEq, Eq, Structural)]
pub enum DisplayMode {
    Tabbed,
    Row,
    Column,
}

/// The name of a display mode, as used by the `display-mode` property and its action.
pub open spec fn mode_name(m: DisplayMode) -> Seq<char> {
    match m {
        DisplayMode::Tabbed => "tabbed"@,
        DisplayMode::Row => "row"@,
        DisplayMode::Column => "column"@,
    }
}

/// The display mode that a name stands for, if any.
pub open spec fn parse_mode(s: Seq<char>) -> Option<DisplayMode> {
    if s == "tabbed"@ {
        Some(DisplayMode::Tabbed)
    } else if s == "row"@ {
        Some(DisplayMode::Row)
    } else if s == "column"@ {
        Some(DisplayMode::Column)
    } else {
        None
    }
}

/// The name of the stack page that shows a display mode.
pub open spec fn stack_page_name(m: DisplayMode) -> Seq<char> {
    match m {
        DisplayMode::Tabbed => "tabbed"@,
        _ => "grid"@,
    }
}

/// The grid orientation of a display mode; tabs have none.
pub open spec fn grid_orientation(m: DisplayMode) -> Option<Orientation> {
    match m {
        DisplayMode::Tabbed => None,
        DisplayMode::Row => Some(Orientation::Horizontal),
        DisplayMode::Column => Some(Orientation::Vertical),
    }
}

impl DisplayMode {
    /// The name of the mode: `tabbed`, `row` or `column`.
    pub fn to_string(&self) -> (r: String)
        ensures
            r@ == mode_name(*self),
    {
        match self {
            DisplayMode::Tabbed => String::from_str("tabbed"),
            DisplayMode::Row => String::from_str("row"),
            DisplayMode::Column => String::from_str("column"),
        }
    }

    /// The mode with the given name; any other text is refused.
    pub fn from_str(s: &str) -> (r: Result<DisplayMode, ()>)
        ensures
            match parse_mode(s@) {
                Some(m) => r == Ok::<DisplayMode, ()>(m),
                None => r is Err,
            },
    {
        if str_eq(s, "tabbed") {
            Ok(DisplayMode::Tabbed)
        } else if str_eq(s, "row") {
            Ok(DisplayMode::Row)
        } else if str_eq(s, "column") {
            Ok(DisplayMode::Column)
        } else {
            Err(())
        }
    }

    /// The stack page that shows this mode: `tabbed` for tabs, `grid` for a row or a column.
    pub fn stack_page(&self) -> (r: &'static str)
        ensures
            r@ == stack_page_name(*self),
    {
        match self {
            DisplayMode::Tabbed => "tabbed",
            _ => "grid",
        }
    }

    /// The orientation of the grid for this mode; `None` for tabs.
    pub fn orientation(&self) -> (r: Option<Orientation>)
        ensures
            r == grid_orientation(*self),
    {
        match self {
            DisplayMode::Tabbed => None,
            DisplayMode::Row => Some(Orientation::Horizontal),
            DisplayMode::Column => Some(Orientation::Vertical),
        }
    }

    /// Whether the pages sit in the grid (as opposed to tabs).
    pub fn uses_grid(&self) -> (r: bool)
        ensures
            r == (*self != DisplayMode::Tabbed),
    {
        !matches!(self, DisplayMode::Tabbed)
    }
}

/// How the pages move when the display mode changes.
#[derive(Clone, Copy, Debug, PartialEq, Eq, Structural)]
pub enum ModeTransition {
    /// The mode stays the same: nothing happens.
    Unchanged,
    /// The pages move from the tabs into the grid, which takes the new orientation.
    TabsToGrid { orientation: Orientation },
    /// The pages move from the grid into tabs.
    GridToTabs,
    /// The pages stay in the grid, which takes the new orientation.
    Reorient { orientation: Orientation },
}

/// The transition between two display modes.
pub open spec fn mode_transition(old: DisplayMode, new: DisplayMode) -> ModeTransition {
    if old == new {
        ModeTransition::Unchanged
    } else {
        match new {
            DisplayMode::Tabbed => ModeTransition::GridToTabs,
            _ => if old == DisplayMode::Tabbed {
                ModeTransition::TabsToGrid { orientation: grid_orientation(new)->0 }
            } else {
                ModeTransition::Reorient { orientation: grid_orientation(new)->0 }
            },
        }
    }
}

/// Chooses how the pages move when the display mode changes from `old` to `new`.
pub fn transition(old: DisplayMode, new: DisplayMode) -> (r: ModeTransition)
    ensures
        r == mode_transition(old, new),
{
    if old == new {
        return ModeTransition::Unchanged;
    }
    match new {
        DisplayMode::Tabbed => ModeTransition::GridToTabs,
        DisplayMode::Row | DisplayMode::Column => {
            let orientation = if new == DisplayMode::Row {
                Orientation::Horizontal
            } else {
                Orientation::Vertical
            };
            if old == DisplayMode::Tabbed {
                ModeTransition::TabsToGrid { orientation }
            } else {
                ModeTransition::Reorient { orientation }
            }
        },
    }
}

impl Default for DisplayMode {
    /// Windows start with tabs.
    fn default() -> (r: DisplayMode)
        ensures
            r == DisplayMode::Tabbed,
    {
        DisplayMode::Tabbed
    }
}

/// Switching modes moves the pages by what the new mode is: staying in a mode does nothing;
/// going to tabs takes the pages out of the grid; going to a row lays the grid out
/// horizontally and to a column vertically, moving the pages in from the tabs when coming from
/// tabs and keeping them in the grid otherwise.
pub proof fn law_transition_follows_the_new_mode(from: DisplayMode, to: DisplayMode)
    ensures
        from == to ==> mode_transition(from, to) == ModeTransition::Unchanged,
        from != to && to == DisplayMode::Tabbed ==> mode_transition(from, to)
            == ModeTransition::GridToTabs,
        from == DisplayMode::Tabbed && to == DisplayMode::Row ==> mode_transition(from, to)
            == (ModeTransition::TabsToGrid { orientation: Orientation::Horizontal }),
        from == DisplayMode::Tabbed && to == DisplayMode::Column ==> mode_transition(from, to)
            == (ModeTransition::TabsToGrid { orientation: Orientation::Vertical }),
        from == DisplayMode::Column && to == DisplayMode::Row ==> mode_transition(from, to)
            == (ModeTransition::Reorient { orientation: Orientation::Horizontal }),
        from == DisplayMode::Row && to == DisplayMode::Column ==> mode_transition(from, to)
            == (ModeTransition::Reorient { orientation: Orientation::Vertical }),
        grid_orientation(DisplayMode::Row) == Some(Orientation::Horizontal),
        grid_orientation(DisplayMode::Column) == Some(Orientation::Vertical),
        grid_orientation(DisplayMode::Tabbed) is None,
{
}

/// Parsing the name of a display mode gives back that mode, and no two modes share a name.
pub proof fn law_mode_name_round_trip(m: DisplayMode, n: DisplayMode)
    ensures
        parse_mode(mode_name(m)) == Some(m),
        mode_name(m) == mode_name(n) ==> m == n,
{
    reveal_strlit("tabbed");
    reveal_strlit("row");
    reveal_strlit("column");
    assert("tabbed"@.len() == 6 && "row"@.len() == 3 && "column"@.len() == 6);
    assert("tabbed"@[0] == 't' && "column"@[0] == 'c');
    assert("tabbed"@ != "row"@ && "tabbed"@ != "column"@ && "row"@ != "column"@);
}

} // verus!
