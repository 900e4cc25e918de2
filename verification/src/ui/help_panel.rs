use vstd::prelude::*;

verus! {

/// Number of rows in the keybinding help list.
pub const ROW_COUNT: usize = 49;

/// One row of the keybinding help list.
#[derive(Clone, Copy, PartialEq, Eq, Debug)]
pub enum HelpRow {
    /// A separator line between sections.
    Blank,
    /// A section header.
    Section(&'static str),
    /// A key and what it does.
    Binding(&'static str, &'static str),
}

/// The separator rows of the help list.
pub open spec fn is_blank_row(index: int) -> bool {
    index == 7 || index == 12 || index == 33 || index == 38 || index == 45
}

/// A row is selectable (can hold the highlight cursor) when it is in the list
/// and carries a key binding or a section header; separator rows are skipped
/// while scrolling.
pub open spec fn selectable(index: int) -> bool {
    0 <= index < ROW_COUNT && !is_blank_row(index)
}

/// The first selectable row at or after `from`, or `ROW_COUNT` when there is
/// none.
pub open spec fn first_selectable_from(from: int) -> int
    decreases ROW_COUNT - from,
{
    if from >= ROW_COUNT {
        ROW_COUNT as int
    } else if selectable(from) {
        from
    } else {
        first_selectable_from(from + 1)
    }
}

/// The last selectable row before `below`, or -1 when there is none.
pub open spec fn last_selectable_below(below: int) -> int
    decreases below,
{
    if below <= 0 {
        -1
    } else if selectable(below - 1) {
        below - 1
    } else {
        last_selectable_below(below - 1)
    }
}

/// The next selectable row below `current`, or `current` at the bottom.
pub open spec fn next_selectable_spec(current: int) -> int {
    let next = first_selectable_from(current + 1);
    if next < ROW_COUNT { next } else { current }
}

/// The previous selectable row above `current`, or `current` at the top.
pub open spec fn prev_selectable_spec(current: int) -> int {
    let prev = last_selectable_below(current);
    if prev >= 0 { prev } else { current }
}

/// Row `index` of the help list.
pub fn row(index: usize) -> (r: HelpRow)
    requires
        index < ROW_COUNT,
    ensures
        (r is Blank) == is_blank_row(index as int),
{
    match index {
        0 => HelpRow::Section("Navigation"),
        1 => HelpRow::Binding("j / ↓", "Move down"),
        2 => HelpRow::Binding("k / ↑", "Move up"),
        3 => HelpRow::Binding("h / ←", "Go to parent directory"),
        4 => HelpRow::Binding("l / → / Enter", "Enter directory"),
        5 => HelpRow::Binding("Tab", "Next panel"),
        6 => HelpRow::Binding("Shift+Tab", "Previous panel"),
        7 => HelpRow::Blank,
        8 => HelpRow::Section("Selection"),
        9 => HelpRow::Binding("Shift+J / Shift+↓", "Mark item and move down"),
        10 => HelpRow::Binding("Shift+K / Shift+↑", "Mark item and move up"),
        11 => HelpRow::Binding("Esc", "Clear selection"),
        12 => HelpRow::Blank,
        13 => HelpRow::Section("File operations"),
        14 => HelpRow::Binding("n", "Create file or directory"),
        15 => HelpRow::Binding("r", "Rename current item"),
        16 => HelpRow::Binding("g", "Go to path"),
        17 => HelpRow::Binding("d", "Delete selected or current item"),
        18 => HelpRow::Binding("c", "Copy selected or current item"),
        19 => HelpRow::Binding("Shift+C", "Copy single item — rename before placing"),
        20 => HelpRow::Binding("m", "Move selected or current item"),
        21 => HelpRow::Binding("Shift+M", "Move single item — rename before placing"),
        22 => HelpRow::Binding("v", "Toggle viewer panel (follows the file list)"),
        23 => HelpRow::Binding("Tab (viewer open)", "Switch between file list and viewer"),
        24 => HelpRow::Binding("Esc (viewer open)", "Close viewer panel"),
        25 => HelpRow::Binding("e", "Open selected item in $EDITOR"),
        26 => HelpRow::Binding("o", "Open with default application"),
        27 => HelpRow::Binding("x", "Run preset command (see ~/.config/lfm/commands.json)"),
        28 => HelpRow::Binding("Shift+S", "Cycle sort: name / date / ext / size"),
        29 => HelpRow::Binding("z", "Zip selected or current item(s)"),
        30 => HelpRow::Binding("u", "Extract .zip or .tar.gz archive"),
        31 => HelpRow::Binding("s", "Search file contents recursively"),
        32 => HelpRow::Binding("f", "Fuzzy-find files by name"),
        33 => HelpRow::Blank,
        34 => HelpRow::Section("Filter"),
        35 => HelpRow::Binding("/", "Enter filter mode"),
        36 => HelpRow::Binding("↓ / Enter / Tab", "Lock filter and move to file list"),
        37 => HelpRow::Binding("Esc", "Clear filter"),
        38 => HelpRow::Blank,
        39 => HelpRow::Section("Pinned directories"),
        40 => HelpRow::Binding("p", "Open pinned panel"),
        41 => HelpRow::Binding("p (in panel)", "Pin current or selected dir"),
        42 => HelpRow::Binding("Enter/Space", "Navigate to pinned dir"),
        43 => HelpRow::Binding("d (in panel)", "Delete pinned dir"),
        44 => HelpRow::Binding("Esc", "Close pinned panel"),
        45 => HelpRow::Blank,
        46 => HelpRow::Section("Other"),
        47 => HelpRow::Binding("?", "Show this help"),
        _ => HelpRow::Binding("q", "Quit"),
    }
}

/// Whether row `index` can hold the highlight cursor.
pub fn is_selectable(index: usize) -> (b: bool)
    ensures
        b == selectable(index as int),
{
    if index >= ROW_COUNT {
        return false;
    }
    match row(index) {
        HelpRow::Blank => false,
        _ => true,
    }
}

/// Next selectable line below `current`, or `current` if already at the bottom.
pub fn next_selectable(current: usize) -> (r: usize)
    ensures
        r == next_selectable_spec(current as int),
{
    if current >= ROW_COUNT {
        proof {
            assert(first_selectable_from(current + 1) == ROW_COUNT);
        }
        return current;
    }
    let mut i = current + 1;
    while i < ROW_COUNT
        invariant
            current < i <= ROW_COUNT,
            first_selectable_from(current + 1) == first_selectable_from(i as int),
        decreases ROW_COUNT - i,
    {
        if is_selectable(i) {
            return i;
        }
        i = i + 1;
    }
    current
}

/// Previous selectable line above `current`, or `current` if already at the top.
pub fn prev_selectable(current: usize) -> (r: usize)
    ensures
        r == prev_selectable_spec(current as int),
{
    let mut i = current;
    while i > 0
        invariant
            i <= current,
            last_selectable_below(current as int) == last_selectable_below(i as int),
        decreases i,
    {
        if is_selectable(i - 1) {
            return i - 1;
        }
        i = i - 1;
    }
    current
}

/// What `first_selectable_from` finds: a selectable row with none skipped.
pub proof fn lemma_first_selectable_from(from: int)
    requires
        0 <= from,
    ensures
        from <= first_selectable_from(from) <= ROW_COUNT || from > ROW_COUNT,
        first_selectable_from(from) < ROW_COUNT ==> selectable(first_selectable_from(from)),
        forall|k: int| from <= k < first_selectable_from(from) ==> !selectable(k),
    decreases ROW_COUNT - from,
{
    if from < ROW_COUNT && !selectable(from) {
        lemma_first_selectable_from(from + 1);
    }
}

/// What `last_selectable_below` finds: a selectable row with none skipped.
pub proof fn lemma_last_selectable_below(below: int)
    ensures
        -1 <= last_selectable_below(below) < below || (below <= 0 && last_selectable_below(below) == -1),
        last_selectable_below(below) >= 0 ==> selectable(last_selectable_below(below)),
        forall|k: int| last_selectable_below(below) < k < below ==> !selectable(k),
    decreases below,
{
    if below > 0 && !selectable(below - 1) {
        lemma_last_selectable_below(below - 1);
    }
}

/// Scrolling down and then back up from a selectable row returns to it, and so
/// does scrolling up and then back down, whenever the first step moved.
pub proof fn lemma_scroll_round_trip(current: int)
    requires
        selectable(current),
    ensures
        next_selectable_spec(current) != current ==> prev_selectable_spec(next_selectable_spec(current)) == current,
        prev_selectable_spec(current) != current ==> next_selectable_spec(prev_selectable_spec(current)) == current,
{
    lemma_first_selectable_from(current + 1);
    lemma_last_selectable_below(current);
    let n = next_selectable_spec(current);
    let p = prev_selectable_spec(current);
    if n != current {
        lemma_last_selectable_below(n);
        let back = last_selectable_below(n);
        assert(back == current) by {
            if back < current {
                assert(!selectable(current));
            }
            if back > current {
                assert(!selectable(back));
            }
        }
    }
    if p != current {
        lemma_first_selectable_from(p + 1);
        let fwd = first_selectable_from(p + 1);
        assert(fwd == current) by {
            if fwd < current {
                assert(!selectable(fwd));
            }
            if fwd > current {
                assert(!selectable(current));
            }
        }
    }
}

/// Scrolling never lands on a separator: from any row, the next and previous
/// rows are selectable unless the cursor stayed where it was.
pub proof fn lemma_scroll_lands_on_selectable(current: int)
    requires
        0 <= current,
    ensures
        next_selectable_spec(current) == current || selectable(next_selectable_spec(current)),
        prev_selectable_spec(current) == current || selectable(prev_selectable_spec(current)),
{
    lemma_first_selectable_from(current + 1);
    lemma_last_selectable_below(current);
}

} // verus!
