use vstd::prelude::*;

use crate::text::{clamp_u16, count_lines, line_count_spec, signed_decimal, signed_decimal_spec};

verus! {

/// A popup over the panels showing the merged output of a command that was run with its
/// output captured.
pub struct CapturePopup {
    /// The command's label.
    pub label: String,
    /// Everything it wrote, standard output and standard error together.
    pub output: String,
    /// Its exit code, or `None` when it could not be started.
    pub exit_code: Option<i32>,
    /// First body row shown.
    pub scroll: u16,
}

/// The text shown in the body: the output, or a note that there was none.
pub open spec fn body_spec(output: Seq<char>) -> Seq<char> {
    if output.len() == 0 {
        "(no output)"@
    } else {
        output
    }
}

/// The title: the exit code and the label, or that the command could not be
/// started.
pub open spec fn header_spec(exit_code: Option<i32>, label: Seq<char>) -> Seq<char> {
    match exit_code {
        Some(code) => " exit "@ + signed_decimal_spec(code as int) + " \u{2014} "@ + label + " "@,
        None => " spawn failed \u{2014} "@ + label + " "@,
    }
}

/// The text shown in the body.
pub fn body(view: &CapturePopup) -> (b: String)
    ensures
        b@ == body_spec(view.output@),
{
    if view.output.as_str().is_empty() {
        String::from_str("(no output)")
    } else {
        view.output.clone()
    }
}

/// The title line's text.
pub fn header(view: &CapturePopup) -> (h: String)
    ensures
        h@ == header_spec(view.exit_code, view.label@),
{
    let mut h = match view.exit_code {
        Some(code) => {
            let mut h = String::from_str(" exit ");
            h.append(signed_decimal(code as i64).as_str());
            h.append(" \u{2014} ");
            h
        },
        None => String::from_str(" spawn failed \u{2014} "),
    };
    h.append(view.label.as_str());
    h.append(" ");
    h
}

/// Total scrollable rows in the body, used by update logic to clamp
/// `scroll`.
pub fn line_count(view: &CapturePopup) -> (n: u16)
    ensures
        n == clamp_u16(line_count_spec(body_spec(view.output@)) as int),
{
    let lines = count_lines(body(view).as_str());
    if lines > 65535 {
        65535
    } else {
        lines as u16
    }
}

} // verus!
