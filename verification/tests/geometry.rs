use identity::geometry::{effective_dimensions, measured_side, paintable_dimensions};

#[test]
fn quarter_turns_swap_dimensions() {
    assert_eq!(effective_dimensions(0, 800, 600), (800, 600));
    assert_eq!(effective_dimensions(90, 800, 600), (600, 800));
    assert_eq!(effective_dimensions(180, 800, 600), (800, 600));
    assert_eq!(effective_dimensions(270, 800, 600), (600, 800));
}

#[test]
fn media_dimensions_need_a_positive_size() {
    assert_eq!(paintable_dimensions(7680, 4320), Some((7680, 4320)));
    assert_eq!(paintable_dimensions(0, 4320), None);
    assert_eq!(paintable_dimensions(7680, -1), None);
}

#[test]
fn measured_sides_follow_rotation() {
    assert_eq!(measured_side(true, 0, 1920, 1080), 1920);
    assert_eq!(measured_side(false, 0, 1920, 1080), 1080);
    assert_eq!(measured_side(true, 90, 1920, 1080), 1080);
    assert_eq!(measured_side(false, 270, 1920, 1080), 1920);
}

#[test]
fn two_quarter_turn_swaps_restore_the_size() {
    for degrees in [0, 90, 180, 270] {
        let (w, h) = effective_dimensions(degrees, 800, 600);
        assert_eq!(effective_dimensions(degrees, w, h), (800, 600));
    }
}
