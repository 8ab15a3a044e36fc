use identity::display_mode::{transition, DisplayMode, ModeTransition};
use identity::page_grid::Orientation;

#[test]
fn display_mode_names_round_trip() {
    for mode in [DisplayMode::Tabbed, DisplayMode::Row, DisplayMode::Column] {
        assert_eq!(DisplayMode::from_str(&mode.to_string()), Ok(mode));
    }
    assert_eq!(DisplayMode::Tabbed.to_string(), "tabbed");
    assert_eq!(DisplayMode::Row.to_string(), "row");
    assert_eq!(DisplayMode::Column.to_string(), "column");
}

#[test]
fn unknown_display_mode_names_are_refused() {
    assert_eq!(DisplayMode::from_str("grid"), Err(()));
    assert_eq!(DisplayMode::from_str("Row"), Err(()));
    assert_eq!(DisplayMode::from_str(""), Err(()));
    assert_eq!(DisplayMode::from_str("tabbed "), Err(()));
}

#[test]
fn display_mode_layout() {
    assert_eq!(DisplayMode::default(), DisplayMode::Tabbed);
    assert_eq!(DisplayMode::Tabbed.stack_page(), "tabbed");
    assert_eq!(DisplayMode::Row.stack_page(), "grid");
    assert_eq!(DisplayMode::Column.stack_page(), "grid");
    assert_eq!(DisplayMode::Tabbed.orientation(), None);
    assert_eq!(DisplayMode::Row.orientation(), Some(Orientation::Horizontal));
    assert_eq!(DisplayMode::Column.orientation(), Some(Orientation::Vertical));
    assert!(!DisplayMode::Tabbed.uses_grid());
    assert!(DisplayMode::Row.uses_grid());
}

#[test]
fn mode_transitions() {
    assert_eq!(transition(DisplayMode::Row, DisplayMode::Row), ModeTransition::Unchanged);
    assert_eq!(
        transition(DisplayMode::Tabbed, DisplayMode::Column),
        ModeTransition::TabsToGrid { orientation: Orientation::Vertical }
    );
    assert_eq!(transition(DisplayMode::Column, DisplayMode::Tabbed), ModeTransition::GridToTabs);
    assert_eq!(
        transition(DisplayMode::Column, DisplayMode::Row),
        ModeTransition::Reorient { orientation: Orientation::Horizontal }
    );
}
