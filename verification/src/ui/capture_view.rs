use vstd::prelude::*;

use crate::message::NavOp;
use crate::text::{clamp_u16, count_lines, line_count_spec, signed_decimal, signed_decimal_spec};

verus! {

/// A full-screen view showing the merged output of a command that was run with its
/// output captured.
pub struct CaptureView {
    /// The command's label.
    pub label: String,
    /// Everything it wrote, standard output and standard error together.
    pub output: String,
    /// Its exit code, or `None` when it could not be started.
    pub exit_code: Option<i32>,
    /// First body row shown.
    pub scroll: u16,
    /// Rows the body had on screen when it was last drawn; zero before that.
    pub rows: u16,
}

/// The text shown in the body: the output, or a note that there was none.
pub open spec fn body_spec(output: Seq<char>) -> Seq<char> {
    if output.len() == 0 {
        "(no output)"@
    } else {
        output
    }
}

/// The title: the exit code and the label, or that the command could not be
/// started.
pub open spec fn header_spec(exit_code: Option<i32>, label: Seq<char>) -> Seq<char> {
    match exit_code {
        Some(code) => " exit "@ + signed_decimal_spec(code as int) + " \u{2014} "@ + label + " "@,
        None => " spawn failed \u{2014} "@ + label + " "@,
    }
}

/// The text shown in the body.
pub fn body(view: &CaptureView) -> (b: String)
    ensures
        b@ == body_spec(view.output@),
{
    if view.output.as_str().is_empty() {
        String::from_str("(no output)")
    } else {
        view.output.clone()
    }
}

/// The title line's text.
pub fn header(view: &CaptureView) -> (h: String)
    ensures
        h@ == header_spec(view.exit_code, view.label@),
{
    let mut h = match view.exit_code {
        Some(code) => {
            let mut h = String::from_str(" exit ");
            h.append(signed_decimal(code as i64).as_str());
            h.append(" \u{2014} ");
            h
        },
        None => String::from_str(" spawn failed \u{2014} "),
    };
    h.append(view.label.as_str());
    h.append(" ");
    h
}

/// Total scrollable rows in the body, used by update logic to clamp
/// `scroll`.
pub fn line_count(view: &CaptureView) -> (n: u16)
    ensures
        n == clamp_u16(line_count_spec(body_spec(view.output@)) as int),
{
    let lines = count_lines(body(view).as_str());
    if lines > 65535 {
        65535
    } else {
        lines as u16
    }
}

/// Rows a page step moves: the rows on screen, at least one.
pub open spec fn page_step_spec(view: CaptureView) -> int {
    if view.rows > 1 { view.rows as int } else { 1 }
}

/// The last scroll position: the one that puts the last line of the body on
/// the last row on screen (the first line while the body fits).
pub open spec fn max_scroll_spec(view: CaptureView) -> int {
    let lines = clamp_u16(line_count_spec(body_spec(view.output@)) as int) as int;
    if lines > page_step_spec(view) { lines - page_step_spec(view) } else { 0 }
}

/// `n` clamped to the `u16` range from above.
pub open spec fn sat_u16(n: int) -> int {
    if n > u16::MAX { u16::MAX as int } else { n }
}

/// The scroll position after `op` from `scroll`: up a row or a page, stopping
/// at the top; down a row or a page, stopping at `max`. Nothing is marked in
/// captured output.
pub open spec fn scrolled(scroll: int, op: NavOp, max: int, page: int) -> int {
    match op {
        NavOp::Up => if scroll > 0 { scroll - 1 } else { 0 },
        NavOp::Down => if sat_u16(scroll + 1) < max { sat_u16(scroll + 1) } else { max },
        NavOp::PageUp => if scroll > page { scroll - page } else { 0 },
        NavOp::PageDown => if sat_u16(scroll + page) < max { sat_u16(scroll + page) } else { max },
        _ => scroll,
    }
}

/// Rows a page step moves.
pub fn page_step(view: &CaptureView) -> (n: u16)
    ensures
        n == page_step_spec(*view),
{
    if view.rows > 1 { view.rows } else { 1 }
}

/// The last scroll position.
pub fn max_scroll(view: &CaptureView) -> (n: u16)
    ensures
        n == max_scroll_spec(*view),
{
    line_count(view).saturating_sub(page_step(view))
}

/// Scroll the output by one key.
pub fn scroll(view: &mut CaptureView, op: NavOp)
    ensures
        final(view).scroll == scrolled(
            old(view).scroll as int,
            op,
            max_scroll_spec(*old(view)),
            page_step_spec(*old(view)),
        ),
        *final(view) == (CaptureView { scroll: final(view).scroll, ..*old(view) }),
{
    let max = max_scroll(view);
    let page = page_step(view);
    let s = view.scroll;
    view.scroll = match op {
        NavOp::Up => s.saturating_sub(1),
        NavOp::Down => {
            let d = s.saturating_add(1);
            if d < max { d } else { max }
        },
        NavOp::PageUp => s.saturating_sub(page),
        NavOp::PageDown => {
            let d = s.saturating_add(page);
            if d < max { d } else { max }
        },
        NavOp::MarkUp | NavOp::MarkDown => s,
    };
}

} // verus!
