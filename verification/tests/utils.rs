use identity::utils::{freplace, gettext_f, replace_first, resolution_label};

fn strings(args: &[&str]) -> Vec<String> {
    args.iter().map(|s| s.to_string()).collect()
}

#[test]
fn replace_first_placeholder_only() {
    assert_eq!(replace_first("{} × {}", "1920"), "1920 × {}");
    assert_eq!(replace_first("no placeholder", "x"), "no placeholder");
    assert_eq!(replace_first("{", "x"), "{");
    assert_eq!(replace_first("a{}", "x"), "ax");
    assert_eq!(replace_first("}{}{", "x"), "}x{");
}

#[test]
fn freplace_fills_in_order() {
    assert_eq!(freplace("{} × {}".to_string(), &strings(&["1920", "1080"])), "1920 × 1080");
    // Extra arguments are dropped, missing ones leave placeholders.
    assert_eq!(freplace("{}".to_string(), &strings(&["a", "b"])), "a");
    assert_eq!(freplace("{} {}".to_string(), &strings(&["a"])), "a {}");
    // An argument that holds a placeholder is filled by the next argument.
    assert_eq!(freplace("{} {}".to_string(), &strings(&["{}", "b"])), "b {}");
    // Matches `str::replacen` with a count of one.
    let mut s = "x{}y{}z".to_string();
    for a in ["1", "2"] {
        s = s.replacen("{}", a, 1);
    }
    assert_eq!(freplace("x{}y{}z".to_string(), &strings(&["1", "2"])), s);
}

#[test]
fn translated_text_is_filled() {
    assert_eq!(gettext_f("{} × {}".to_string(), &strings(&["7680", "4320"])), "7680 × 4320");
    // A translation may put the arguments elsewhere.
    assert_eq!(gettext_f("{} по {}".to_string(), &strings(&["7680", "4320"])), "7680 по 4320");
    let label = |w, h| resolution_label(w, h, "{} × {}".to_string(), "N/A".to_string());
    assert_eq!(label(1920, 1080), "1920 × 1080");
    assert_eq!(label(1080, 1920), "1080 × 1920");
    assert_eq!(label(-2, 3), "-2 × 3");
    assert_eq!(label(0, 1080), "N/A");
    assert_eq!(label(1920, 0), "N/A");
    assert_eq!(resolution_label(0, 0, "{}x{}".to_string(), "n. a.".to_string()), "n. a.");
    assert_eq!(resolution_label(4, 3, "{}x{}".to_string(), "n. a.".to_string()), "4x3");
}
