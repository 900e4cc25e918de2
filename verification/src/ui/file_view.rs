use vstd::prelude::*;

use crate::text::{decimal, decimal_spec};
use crate::view_search::{Match, ViewSearch};

verus! {

/// The viewer panel: which entry it shows. Its content is loaded and drawn by
/// the caller for this entry.
pub struct FileView {
    pub name: String,
    pub path: String,
    pub is_dir: bool,
}

/// One run of cells to restyle over a drawn viewer row: a match on screen.
#[derive(Clone, Copy, PartialEq, Eq, Debug)]
pub struct Highlight {
    /// Screen row.
    pub y: u16,
    /// First screen column of the run.
    pub start: u16,
    /// Screen column just past the run.
    pub end: u16,
    /// Whether this is the match the viewer is on.
    pub current: bool,
}

/// The cells match `m`, the `index`-th match, covers in a text body whose
/// top-left cell is (`x`, `y`), `width` columns wide and `height` rows high,
/// scrolled down to row `scroll`; `None` when the match is off screen. The run
/// is clipped at the body's right edge.
pub open spec fn highlight_of(
    m: Match,
    index: int,
    current: int,
    scroll: int,
    x: int,
    y: int,
    width: int,
    height: int,
) -> Option<Highlight> {
    if m.row < scroll || m.row >= scroll + height {
        None
    } else {
        let right = if x + width > u16::MAX { u16::MAX as int } else { x + width };
        let start = if x + m.col > u16::MAX { u16::MAX as int } else { x + m.col };
        let end0 = if start + m.width > u16::MAX { u16::MAX as int } else { start + m.width };
        let end = if end0 < right { end0 } else { right };
        Some(Highlight { y: (y + (m.row - scroll)) as u16, start: start as u16, end: end as u16, current: index == current })
    }
}

/// The highlights for the first `upto` matches, in match order.
pub open spec fn highlights_upto(
    matches: Seq<Match>,
    current: int,
    scroll: int,
    x: int,
    y: int,
    width: int,
    height: int,
    upto: int,
) -> Seq<Highlight>
    decreases upto,
{
    if upto <= 0 {
        Seq::empty()
    } else {
        let prev = highlights_upto(matches, current, scroll, x, y, width, height, upto - 1);
        match highlight_of(matches[upto - 1], upto - 1, current, scroll, x, y, width, height) {
            Some(h) => prev.push(h),
            None => prev,
        }
    }
}

/// The runs of cells to mark over the drawn text: every match that falls on
/// screen, the current one told apart from the rest.
///
/// The body is the rectangle at (`x`, `y`) of `width` by `height` cells; as
/// for any drawing area, its bottom edge fits the screen's `u16` coordinates.
pub fn highlights(
    search: &ViewSearch,
    scroll: usize,
    x: u16,
    y: u16,
    width: u16,
    height: u16,
) -> (hs: Vec<Highlight>)
    requires
        y + height <= u16::MAX,
    ensures
        hs@ == highlights_upto(
            search.matches@,
            search.current as int,
            scroll as int,
            x as int,
            y as int,
            width as int,
            height as int,
            search.matches@.len() as int,
        ),
{
    let mut hs: Vec<Highlight> = Vec::new();
    let right = x.saturating_add(width);
    for i in 0..search.matches.len()
        invariant
            y + height <= u16::MAX,
            right == (if x + width > u16::MAX { u16::MAX as int } else { x + width }),
            hs@ == highlights_upto(
                search.matches@,
                search.current as int,
                scroll as int,
                x as int,
                y as int,
                width as int,
                height as int,
                i as int,
            ),
    {
        let m = search.matches[i];
        if m.row >= scroll && m.row - scroll < height as usize {
            let offset = (m.row - scroll) as u16;
            let start = x.saturating_add(m.col);
            let end0 = start.saturating_add(m.width);
            let end = if end0 < right { end0 } else { right };
            hs.push(Highlight { y: y + offset, start, end, current: i == search.current });
        }
    }
    hs
}

/// Whether the viewer gives its bottom row to the search: there is a search
/// to show and at least two rows inside the borders.
pub fn search_row_shown(search: &ViewSearch, inner_height: u16) -> (b: bool)
    ensures
        b == ((search.input.active || search.query@.len() != 0) && inner_height >= 2),
{
    search.is_visible() && inner_height >= 2
}

/// The note after the query in the search row.
pub open spec fn match_status_spec(search: ViewSearch) -> Option<Seq<char>> {
    if search.input.active || search.query@.len() == 0 {
        None
    } else if search.matches@.len() == 0 {
        Some("  no match"@)
    } else {
        Some("  "@ + decimal_spec((search.current + 1) as nat) + "/"@ + decimal_spec(
            search.matches@.len() as nat,
        ))
    }
}

/// How far through the matches the viewer is, or why there is nothing to step
/// through. Nothing is said while the query is still being typed.
pub fn match_status(search: &ViewSearch) -> (s: Option<String>)
    requires
        search.current < usize::MAX,
    ensures
        match s {
            Some(t) => match_status_spec(*search) == Some(t@),
            None => match_status_spec(*search) is None,
        },
{
    if search.input.active || search.query.as_str().is_empty() {
        return None;
    }
    if search.matches.len() == 0 {
        return Some(String::from_str("  no match"));
    }
    let mut out = String::from_str("  ");
    out.append(decimal((search.current + 1) as u64).as_str());
    out.append("/");
    out.append(decimal(search.matches.len() as u64).as_str());
    Some(out)
}

} // verus!
