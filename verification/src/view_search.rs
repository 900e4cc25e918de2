//! Text search inside the viewer panel: the `/` query row, the matches it
//! found, and which of them is current.
//!
//! Matches are located in the *rendered* rows — the same pre-wrapped text the
//! viewer draws — rather than in the file's bytes, so a match position names
//! the row the viewer scrolls to and the cells it highlights.
use vstd::prelude::*;

use crate::text::{
    ascii_lower, chars_of, clamp_u16, display_width_of, span_width, to_ascii_lower,
};
use crate::ui::input_box;

verus! {

/// Rows of context kept above a match the viewer scrolls to, so it does not
/// land on the very first row of the panel.
pub const CONTEXT_ROWS: usize = 2;

/// One match of the query, in rendered rows and display columns, so the
/// highlight lands on exactly the cells the widget drew.
#[derive(Clone, Copy, PartialEq, Eq, Debug)]
pub struct Match {
    /// Rendered row the match sits on, counted from the top of the file.
    pub row: usize,
    /// Display column within that row, from the left edge of the text area.
    pub col: u16,
    /// Display width of the matched text.
    pub width: u16,
}

/// The viewer's search: the query row, the standing query, and its matches.
pub struct ViewSearch {
    /// The `/` query row while it has the keys.
    pub input: input_box::Model,
    /// The confirmed query. Empty when no search stands, which is also what
    /// tells the panel not to draw the search row.
    pub query: String,
    /// Every match of `query`, in reading order.
    pub matches: Vec<Match>,
    /// Index into `matches` of the one the viewer is on.
    pub current: usize,
    /// Rendered width `matches` were found at. Rows and columns only mean
    /// anything at that width, so a resize recomputes them.
    pub width: u16,
}

/// `needle` occurs in `hay` starting at character `at`, comparing letters
/// without regard to ASCII case.
pub open spec fn occurs_at(hay: Seq<char>, needle: Seq<char>, at: int) -> bool {
    &&& 0 <= at
    &&& at + needle.len() <= hay.len()
    &&& forall|k: int| 0 <= k < needle.len() ==> ascii_lower(#[trigger] hay[at + k]) == ascii_lower(needle[k])
}

/// Start positions of the matches of `needle` in `hay` found by scanning from
/// `from`: leftmost first, each scan resuming just after the match before it,
/// so matches never overlap. An empty needle has no matches.
pub open spec fn match_starts(hay: Seq<char>, needle: Seq<char>, from: int) -> Seq<int>
    decreases hay.len() - from,
{
    if needle.len() == 0 || from < 0 || from + needle.len() > hay.len() {
        Seq::empty()
    } else if occurs_at(hay, needle, from) {
        seq![from] + match_starts(hay, needle, from + needle.len())
    } else {
        match_starts(hay, needle, from + 1)
    }
}

/// The match at character `start` of rendered row `row` (text `hay`): its
/// column is the display width of the text before it, its width that of the
/// matched text, each clamped to `u16`.
pub open spec fn match_at(row: int, hay: Seq<char>, start: int, len: int) -> Match {
    Match {
        row: row as usize,
        col: clamp_u16(display_width_of(hay.take(start)) as int),
        width: clamp_u16(display_width_of(hay.subrange(start, start + len)) as int),
    }
}

/// The matches in one rendered row, from the scan position `from` on.
pub open spec fn row_matches(row: int, hay: Seq<char>, needle: Seq<char>, from: int) -> Seq<Match> {
    match_starts(hay, needle, from).map_values(|s: int| match_at(row, hay, s, needle.len() as int))
}

/// Every match of `needle` in the first `count` rendered rows, in reading order.
pub open spec fn find_spec(rows: Seq<Seq<char>>, needle: Seq<char>, count: int) -> Seq<Match>
    decreases count,
{
    if count <= 0 {
        Seq::empty()
    } else {
        find_spec(rows, needle, count - 1) + row_matches(count - 1, rows[count - 1], needle, 0)
    }
}

/// The match index `select_from_row` settles on: the first match on or below
/// `row`, or the first match when every one of them is above it.
pub open spec fn first_match_from_row(matches: Seq<Match>, row: int) -> int {
    if exists|i: int| 0 <= i < matches.len() && matches[i].row >= row {
        choose|i: int|
            0 <= i < matches.len() && matches[i].row >= row && forall|j: int|
                0 <= j < i ==> matches[j].row < row
    } else {
        0
    }
}

/// The index after `current`, wrapping at `len`.
pub open spec fn next_index(current: int, len: int) -> int {
    if len == 0 { current } else { (current + 1) % len }
}

/// The index before `current`, wrapping at the start.
pub open spec fn prev_index(current: int, len: int) -> int {
    if len == 0 { current } else if current == 0 { len - 1 } else { current - 1 }
}

/// Does the needle occur at `at`? Callers guarantee the candidate fits.
fn occurs(hay: &Vec<char>, needle: &Vec<char>, at: usize) -> (b: bool)
    requires
        at + needle@.len() <= hay@.len(),
    ensures
        b == occurs_at(hay@, needle@, at as int),
{
    let hay_len = hay.len();
    let mut k: usize = 0;
    while k < needle.len()
        invariant
            hay_len == hay@.len(),
            at + needle@.len() <= hay@.len(),
            k <= needle@.len(),
            forall|j: int| 0 <= j < k ==> ascii_lower(#[trigger] hay@[at + j]) == ascii_lower(needle@[j]),
        decreases needle@.len() - k,
    {
        assert(at + k < hay@.len());
        if to_ascii_lower(hay[at + k]) != to_ascii_lower(needle[k]) {
            assert(!(ascii_lower(hay@[at + k as int]) == ascii_lower(needle@[k as int])));
            return false;
        }
        k = k + 1;
    }
    true
}

/// The match on rendered row `row` whose text before it is `before` columns
/// wide and which is itself `matched` columns wide, each clamped to `u16`.
pub fn match_cells(row: usize, before: usize, matched: usize) -> (m: Match)
    ensures
        m == (Match { row, col: clamp_u16(before as int), width: clamp_u16(matched as int) }),
{
    let col: u16 = if before > 65535 { 65535 } else { before as u16 };
    let width: u16 = if matched > 65535 { 65535 } else { matched as u16 };
    Match { row, col, width }
}

/// Every match of `query` in `rows`, in reading order.
///
/// Matching is literal and case-insensitive over ASCII: folding only ASCII
/// keeps a match as long as the query, so the columns it reports stay exact
/// whatever the surrounding text.
pub fn find(rows: &Vec<String>, query: &str) -> (out: Vec<Match>)
    ensures
        out@ == find_spec(rows@.map_values(|r: String| r@), query@, rows@.len() as int),
{
    let ghost views = rows@.map_values(|r: String| r@);
    let needle = chars_of(query);
    let n = needle.len();
    let mut out: Vec<Match> = Vec::new();
    let mut r: usize = 0;
    while r < rows.len()
        invariant
            r <= rows@.len(),
            views == rows@.map_values(|r: String| r@),
            needle@ == query@,
            n == needle@.len(),
            out@ == find_spec(views, query@, r as int),
        decreases rows@.len() - r,
    {
        let row_text = rows[r].as_str();
        let hay = chars_of(row_text);
        let ghost base = out@;
        assert(views[r as int] == hay@);
        let mut at: usize = 0;
        if n > 0 {
            while n <= hay.len() && at <= hay.len() - n
                invariant
                    0 < n == needle@.len(),
                    needle@ == query@,
                    hay@ == row_text@,
                    r < rows@.len(),
                    at <= hay@.len(),
                    out@ + row_matches(r as int, hay@, needle@, at as int) == base + row_matches(
                        r as int,
                        hay@,
                        needle@,
                        0,
                    ),
                decreases hay@.len() - at,
            {
                let ghost f = |s: int| match_at(r as int, hay@, s, n as int);
                if occurs(&hay, &needle, at) {
                    let m = match_cells(
                        r,
                        span_width(row_text.substring_char(0, at)),
                        span_width(row_text.substring_char(at, at + n)),
                    );
                    proof {
                        let rest = match_starts(hay@, needle@, at + n);
                        assert(match_starts(hay@, needle@, at as int) == seq![at as int] + rest);
                        assert((seq![at as int] + rest).map_values(f) =~= seq![f(at as int)]
                            + rest.map_values(f));
                        assert(m == f(at as int));
                    }
                    out.push(m);
                    proof {
                        assert(out@ + row_matches(r as int, hay@, needle@, at + n) =~= base
                            + row_matches(r as int, hay@, needle@, 0));
                    }
                    at = at + n;
                } else {
                    at = at + 1;
                }
            }
        }
        proof {
            assert(row_matches(r as int, hay@, needle@, at as int) =~= Seq::<Match>::empty());
            assert(out@ =~= base + row_matches(r as int, hay@, needle@, 0));
            assert(find_spec(views, query@, r + 1) == find_spec(views, query@, r as int)
                + row_matches(r as int, views[r as int], query@, 0));
        }
        r = r + 1;
    }
    out
}

impl ViewSearch {
    /// A search panel row with nothing typed and nothing found.
    pub fn new() -> (s: Self)
        ensures
            s.input.text@ == Seq::<char>::empty(),
            !s.input.active,
            s.input.wf(),
            s.query@ == Seq::<char>::empty(),
            s.matches@ == Seq::<Match>::empty(),
            s.current == 0,
            s.width == 0,
    {
        Self {
            input: input_box::Model::new(),
            query: String::new(),
            matches: Vec::new(),
            current: 0,
            width: 0,
        }
    }

    /// Put the query row on screen, empty.
    pub fn open(&mut self)
        ensures
            final(self).input.text@ == Seq::<char>::empty(),
            final(self).input.active,
            final(self).input.wf(),
            final(self).query == old(self).query,
            final(self).matches == old(self).matches,
            final(self).current == old(self).current,
            final(self).width == old(self).width,
    {
        self.input.open();
    }

    /// Drop the query row and everything the last query found.
    pub fn clear(&mut self)
        ensures
            final(self).input.text@ == Seq::<char>::empty(),
            !final(self).input.active,
            final(self).input.wf(),
            final(self).query@ == Seq::<char>::empty(),
            final(self).matches@ == Seq::<Match>::empty(),
            final(self).current == 0,
            final(self).width == 0,
    {
        self.input.close();
        self.query = String::new();
        self.matches = Vec::new();
        self.current = 0;
        self.width = 0;
    }

    /// Whether the panel gives up a row for the search: while the query row has
    /// the keys, and while a query stands.
    pub fn is_visible(&self) -> (b: bool)
        ensures
            b == (self.input.active || self.query@.len() != 0),
    {
        self.input.active || !self.query.as_str().is_empty()
    }

    /// The match the viewer is on, if there is one.
    pub fn current_match(&self) -> (m: Option<Match>)
        ensures
            m == (if self.current < self.matches@.len() {
                Some(self.matches@[self.current as int])
            } else {
                None
            }),
    {
        if self.current < self.matches.len() {
            Some(self.matches[self.current])
        } else {
            None
        }
    }

    /// Put the cursor on the first match at or after `row`, wrapping to the
    /// first match when every one of them is above it.
    pub fn select_from_row(&mut self, row: usize)
        ensures
            final(self).current == first_match_from_row(old(self).matches@, row as int),
            final(self).matches == old(self).matches,
            final(self).query == old(self).query,
            final(self).input == old(self).input,
            final(self).width == old(self).width,
    {
        let mut i: usize = 0;
        while i < self.matches.len()
            invariant
                i <= self.matches@.len(),
                forall|j: int| 0 <= j < i ==> self.matches@[j].row < row,
                self.matches == old(self).matches,
                self.query == old(self).query,
                self.input == old(self).input,
                self.width == old(self).width,
            decreases self.matches@.len() - i,
        {
            if self.matches[i].row >= row {
                proof {
                    let ms = self.matches@;
                    assert(exists|k: int| 0 <= k < ms.len() && ms[k].row >= row);
                    let c = first_match_from_row(ms, row as int);
                    assert(0 <= c < ms.len() && ms[c].row >= row && forall|j: int|
                        0 <= j < c ==> ms[j].row < row);
                    if c < i {
                        assert(ms[c].row < row);
                    }
                    if c > i {
                        assert(ms[i as int].row < row);
                    }
                }
                self.current = i;
                return;
            }
            i = i + 1;
        }
        self.current = 0;
    }

    /// Move to the next match, wrapping at the end.
    pub fn select_next(&mut self)
        ensures
            final(self).current == next_index(old(self).current as int, old(self).matches@.len() as int),
            final(self).matches == old(self).matches,
            final(self).query == old(self).query,
            final(self).input == old(self).input,
            final(self).width == old(self).width,
    {
        let len = self.matches.len();
        if len == 0 {
            return;
        }
        proof {
            vstd::arithmetic::div_mod::lemma_add_mod_noop_right(1, self.current as int, len as int);
            vstd::arithmetic::div_mod::lemma_mod_bound(self.current as int, len as int);
        }
        self.current = ((self.current % len) + 1) % len;
    }

    /// Move to the previous match, wrapping at the start.
    pub fn select_prev(&mut self)
        ensures
            final(self).current == prev_index(old(self).current as int, old(self).matches@.len() as int),
            final(self).matches == old(self).matches,
            final(self).query == old(self).query,
            final(self).input == old(self).input,
            final(self).width == old(self).width,
    {
        let len = self.matches.len();
        if len == 0 {
            return;
        }
        self.current = if self.current == 0 { len - 1 } else { self.current - 1 };
    }

    /// The row to scroll to so the current match is on screen with a little
    /// context above it, or `None` when there is no current match or it is
    /// already visible in a `height`-row panel scrolled to `scroll`.
    pub fn scroll_target(&self, scroll: usize, height: usize) -> (t: Option<usize>)
        ensures
            t == (if self.current < self.matches@.len() {
                let row = self.matches@[self.current as int].row;
                if scroll <= row < scroll + height {
                    None
                } else if row >= CONTEXT_ROWS {
                    Some((row - CONTEXT_ROWS) as usize)
                } else {
                    Some(0usize)
                }
            } else {
                None
            }),
    {
        let m = match self.current_match() {
            Some(m) => m,
            None => return None,
        };
        let row = m.row;
        if row >= scroll && row - scroll < height {
            return None;
        }
        Some(row.saturating_sub(CONTEXT_ROWS))
    }
}

/// Find every match of the standing query in the viewer's rendered rows,
/// keeping the cursor on a match that still exists.
///
/// `rendered` holds the rows of the viewer's text drawn `width` columns wide,
/// or `None` for content with no text to search (an image). A zero width means
/// the panel has not been drawn yet; both leave the search with no matches.
pub fn recompute(search: &mut ViewSearch, rendered: Option<&Vec<String>>, width: u16)
    ensures
        final(search).width == width,
        final(search).query == old(search).query,
        final(search).input == old(search).input,
        match rendered {
            Some(rows) if width != 0 && old(search).query@.len() != 0 => {
                let found = find_spec(rows@.map_values(|r: String| r@), old(search).query@, rows@.len() as int);
                &&& final(search).matches@ == found
                &&& final(search).current == (if found.len() == 0 {
                    0
                } else if old(search).current < found.len() {
                    old(search).current as int
                } else {
                    found.len() - 1
                })
            },
            _ => final(search).matches@ == Seq::<Match>::empty() && final(search).current == old(search).current,
        },
{
    search.matches = Vec::new();
    search.width = width;
    let rows = match rendered {
        Some(rows) => rows,
        None => return,
    };
    if width == 0 || search.query.as_str().is_empty() {
        return;
    }
    search.matches = find(rows, search.query.as_str());
    let last = if search.matches.len() == 0 { 0 } else { search.matches.len() - 1 };
    if search.current > last {
        search.current = last;
    }
}

/// Stepping to the next match and back, or back and then on, returns to the
/// same match.
pub proof fn lemma_next_prev_inverse(current: int, len: int)
    requires
        0 <= current < len,
    ensures
        prev_index(next_index(current, len), len) == current,
        next_index(prev_index(current, len), len) == current,
        0 <= next_index(current, len) < len,
        0 <= prev_index(current, len) < len,
{
    if current + 1 < len {
        vstd::arithmetic::div_mod::lemma_small_mod((current + 1) as nat, len as nat);
    } else {
        vstd::arithmetic::div_mod::lemma_mod_self_0(len);
    }
    if current == 0 {
        vstd::arithmetic::div_mod::lemma_mod_self_0(len);
    } else {
        vstd::arithmetic::div_mod::lemma_small_mod(current as nat, len as nat);
    }
}

/// Matches are found where the query really occurs, and never overlap: each
/// starts at or after the end of the one before it.
pub proof fn lemma_match_starts_sound(hay: Seq<char>, needle: Seq<char>, from: int)
    ensures
        forall|i: int| 0 <= i < match_starts(hay, needle, from).len() ==> occurs_at(
            hay,
            needle,
            #[trigger] match_starts(hay, needle, from)[i],
        ) && match_starts(hay, needle, from)[i] >= from,
        forall|i: int|
            0 <= i < match_starts(hay, needle, from).len() - 1 ==> #[trigger] match_starts(
                hay,
                needle,
                from,
            )[i] + needle.len() <= match_starts(hay, needle, from)[i + 1],
    decreases hay.len() - from,
{
    if needle.len() == 0 || from < 0 || from + needle.len() > hay.len() {
    } else if occurs_at(hay, needle, from) {
        lemma_match_starts_sound(hay, needle, from + needle.len());
        let rest = match_starts(hay, needle, from + needle.len());
        let all = match_starts(hay, needle, from);
        assert(all == seq![from] + rest);
        assert forall|i: int| 0 <= i < all.len() implies occurs_at(hay, needle, #[trigger] all[i])
            && all[i] >= from by {
            if i > 0 {
                assert(all[i] == rest[i - 1]);
            }
        }
        assert forall|i: int| 0 <= i < all.len() - 1 implies #[trigger] all[i] + needle.len()
            <= all[i + 1] by {
            assert(all[i + 1] == rest[i]);
            if i > 0 {
                assert(all[i] == rest[i - 1]);
            }
        }
    } else {
        lemma_match_starts_sound(hay, needle, from + 1);
        assert(match_starts(hay, needle, from) == match_starts(hay, needle, from + 1));
    }
}

} // verus!
