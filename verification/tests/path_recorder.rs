use identity::path_recorder::{
    output_path, should_record_click, timestamp_from_millis, unix_timestamp_ms, ModifierType,
    PathDocument, PathPoint, PathRecorder, PathSource, COORDINATE_SPACE, FORMAT, PRIMARY_BUTTON,
    TIME_UNIT,
};

#[test]
fn click_policy_records_plain_primary_clicks_only() {
    assert!(should_record_click(1, ModifierType::empty()));
    assert!(!should_record_click(1, ModifierType::shift_mask()));
    assert!(!should_record_click(3, ModifierType::empty()));
}

#[test]
fn shift_with_other_modifiers_is_still_ignored() {
    // Shift plus Control (bit 2).
    assert!(!should_record_click(PRIMARY_BUTTON, ModifierType::from_bits(1 | 4)));
    // Control alone does not block recording.
    assert!(should_record_click(PRIMARY_BUTTON, ModifierType::from_bits(4)));
    assert!(ModifierType::from_bits(5).contains(ModifierType::shift_mask()));
    assert!(!ModifierType::from_bits(4).contains(ModifierType::shift_mask()));
}

#[test]
fn output_path_uses_the_timestamp() {
    assert_eq!(output_path(1_782_470_000_000), "/tmp/identity-path-1782470000000.json");
    assert_eq!(output_path(0), "/tmp/identity-path-0.json");
    assert_eq!(output_path(u64::MAX), "/tmp/identity-path-18446744073709551615.json");
}

#[test]
fn timestamps_saturate_and_default_to_zero() {
    assert_eq!(timestamp_from_millis(None), 0);
    assert_eq!(timestamp_from_millis(Some(1_782_470_000_000)), 1_782_470_000_000);
    assert_eq!(timestamp_from_millis(Some(u64::MAX as u128)), u64::MAX);
    assert_eq!(timestamp_from_millis(Some(u64::MAX as u128 + 1)), u64::MAX);
}

#[test]
fn current_timestamp_is_after_2020() {
    // 2020-01-01T00:00:00Z in milliseconds.
    assert!(unix_timestamp_ms() > 1_577_836_800_000);
}

fn moon_source() -> PathSource {
    PathSource {
        uri: "file:///tmp/moon8k.mov".to_owned(),
        display_name: "moon8k.mov".to_owned(),
        width: 7680,
        height: 4320,
    }
}

#[test]
fn document_holds_the_path_json_contract_fields() {
    let points = vec![
        PathPoint { x: 2450, y: 2100, t_bits: 12.345678f64.to_bits() },
        PathPoint { x: 5200, y: 1850, t_bits: 165.0f64.to_bits() },
    ];
    let document = PathDocument::new(1_782_470_000_000, moon_source(), points.clone());
    assert_eq!(document.format_name(), "identity-path-v1");
    assert_eq!(document.format_name(), FORMAT);
    assert_eq!(document.created_at_unix_ms(), 1_782_470_000_000);
    assert_eq!(document.time_unit(), "seconds");
    assert_eq!(document.time_unit(), TIME_UNIT);
    assert_eq!(document.coordinate_space(), "source_pixels_top_left_origin");
    assert_eq!(document.coordinate_space(), COORDINATE_SPACE);
    assert_eq!(document.source(), &moon_source());
    assert_eq!(document.points(), &points);
    assert_eq!(f64::from_bits(document.points()[0].t_bits), 12.345678);
}

#[test]
fn recorder_pins_to_the_first_media() {
    let mut recorder = PathRecorder::new();
    let p = PathPoint { x: 1, y: 2, t_bits: 0 };
    // Not recording yet.
    assert!(!recorder.record_click(7, 1, ModifierType::empty(), Some(p)));
    recorder.start();
    assert!(recorder.active());
    assert!(recorder.record_click(7, 1, ModifierType::empty(), Some(p)));
    // Other media is ignored once pinned.
    assert!(!recorder.record_click(8, 1, ModifierType::empty(), Some(p)));
    // Shift clicks, other buttons and misses are ignored.
    assert!(!recorder.record_click(7, 1, ModifierType::shift_mask(), Some(p)));
    assert!(!recorder.record_click(7, 3, ModifierType::empty(), Some(p)));
    assert!(!recorder.record_click(7, 1, ModifierType::empty(), None));
    let q = PathPoint { x: 3, y: 4, t_bits: 1.5f64.to_bits() };
    assert!(recorder.record_click(7, 1, ModifierType::empty(), Some(q)));
    assert_eq!(recorder.finish(), Some((7, vec![p, q])));
    assert!(!recorder.active());
    assert_eq!(recorder.finish(), None);
}

#[test]
fn recorder_without_points_writes_nothing() {
    let mut recorder = PathRecorder::new();
    recorder.start();
    assert_eq!(recorder.finish(), None);
}
