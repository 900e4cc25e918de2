use lfm::ui::target_bar::fit;

#[test]
fn a_path_that_fits_is_left_alone() {
    assert_eq!(fit("/tmp/a", 10), "/tmp/a");
}

#[test]
fn a_long_path_keeps_its_tail() {
    assert_eq!(fit("/tmp/one/two/three", 8), "\u{2026}o/three");
}

#[test]
fn a_bar_with_no_room_renders_nothing() {
    assert_eq!(fit("/tmp/a", 0), "");
}

#[test]
fn a_one_column_bar_shows_only_the_ellipsis() {
    assert_eq!(fit("/tmp/a", 1), "\u{2026}");
}

#[test]
fn a_path_exactly_as_wide_as_the_bar_is_kept() {
    assert_eq!(fit("/tmp/a", 6), "/tmp/a");
}

#[test]
fn fitting_counts_characters_not_bytes() {
    assert_eq!(fit("/ä/ö/ü", 4), "\u{2026}ö/ü");
}

#[test]
fn fitting_counts_columns_of_wide_characters() {
    assert_eq!(fit("日本語", 6), "日本語");
    assert_eq!(fit("日本語", 3), "\u{2026}語");
    assert_eq!(fit("日本語", 4), "\u{2026}語");
    assert_eq!(fit("日本語", 1), "\u{2026}");
}
