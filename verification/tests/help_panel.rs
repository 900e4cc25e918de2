use lfm::ui::help_panel::{is_selectable, next_selectable, prev_selectable, row, HelpRow, ROW_COUNT};

#[test]
fn separators_cannot_hold_the_cursor() {
    for i in [7, 12, 33, 38, 45] {
        assert!(!is_selectable(i), "row {i}");
        assert_eq!(row(i), HelpRow::Blank);
    }
    assert!(is_selectable(0));
    assert!(is_selectable(48));
    assert!(!is_selectable(ROW_COUNT));
}

#[test]
fn rows_carry_their_bindings() {
    assert_eq!(row(0), HelpRow::Section("Navigation"));
    assert_eq!(row(1), HelpRow::Binding("j / ↓", "Move down"));
    assert_eq!(row(48), HelpRow::Binding("q", "Quit"));
}

#[test]
fn scrolling_down_skips_separators() {
    assert_eq!(next_selectable(0), 1);
    assert_eq!(next_selectable(6), 8);
    assert_eq!(next_selectable(44), 46);
}

#[test]
fn scrolling_up_skips_separators() {
    assert_eq!(prev_selectable(8), 6);
    assert_eq!(prev_selectable(46), 44);
    assert_eq!(prev_selectable(1), 0);
}

#[test]
fn scrolling_stops_at_both_ends() {
    assert_eq!(next_selectable(ROW_COUNT - 1), ROW_COUNT - 1);
    assert_eq!(prev_selectable(0), 0);
}

#[test]
fn scrolling_down_then_up_comes_back() {
    for i in 0..ROW_COUNT {
        if !is_selectable(i) {
            continue;
        }
        let n = next_selectable(i);
        if n != i {
            assert!(is_selectable(n));
            assert_eq!(prev_selectable(n), i);
        }
        let p = prev_selectable(i);
        if p != i {
            assert!(is_selectable(p));
            assert_eq!(next_selectable(p), i);
        }
    }
}
