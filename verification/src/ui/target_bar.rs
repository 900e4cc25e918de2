use vstd::prelude::*;

use crate::text::{display_width_of, span_width};

verus! {

/// Rows the bar takes off the top of the destination panel.
pub const HEIGHT: u16 = 3;

/// The single character that stands for the dropped head of a path.
pub open spec fn ellipsis() -> char {
    '\u{2026}'
}

/// `s` takes at most `width` columns on screen.
pub open spec fn fits(s: Seq<char>, width: nat) -> bool {
    display_width_of(s) <= width
}

/// The path with its first `cut` characters replaced by an ellipsis.
pub open spec fn cut_head(path: Seq<char>, cut: int) -> Seq<char> {
    seq![ellipsis()] + path.skip(cut)
}

/// The fewest characters, at least `from`, whose dropping (in favour of an
/// ellipsis) leaves a text that fits in `width` columns; -1 when even the
/// ellipsis alone does not fit.
pub open spec fn first_fitting_cut(path: Seq<char>, width: nat, from: int) -> int
    decreases path.len() + 1 - from,
{
    if from < 0 || from > path.len() {
        -1
    } else if fits(cut_head(path, from), width) {
        from
    } else {
        first_fitting_cut(path, width, from + 1)
    }
}

/// `path` shortened to at most `width` columns by dropping its head. A path
/// that fits is kept whole; otherwise as few leading characters as possible
/// give way to an ellipsis; when not even the ellipsis fits, nothing is shown.
pub open spec fn fit_spec(path: Seq<char>, width: nat) -> Seq<char> {
    if fits(path, width) {
        path
    } else {
        let cut = first_fitting_cut(path, width, 1);
        if cut < 0 {
            Seq::empty()
        } else {
            cut_head(path, cut)
        }
    }
}

/// What `first_fitting_cut` finds: a cut that fits, with none before it that
/// would.
pub proof fn lemma_first_fitting_cut(path: Seq<char>, width: nat, from: int)
    requires
        0 <= from,
    ensures
        first_fitting_cut(path, width, from) == -1 || (from <= first_fitting_cut(path, width, from) <= path.len()
            && fits(cut_head(path, first_fitting_cut(path, width, from)), width)),
        forall|k: int|
            from <= k <= path.len() && (first_fitting_cut(path, width, from) == -1 || k < first_fitting_cut(
                path,
                width,
                from,
            )) ==> !fits(#[trigger] cut_head(path, k), width),
    decreases path.len() + 1 - from,
{
    if from <= path.len() && !fits(cut_head(path, from), width) {
        lemma_first_fitting_cut(path, width, from + 1);
    }
}

/// Shorten a path to `width` columns by dropping its head: the folder the
/// transfer lands in is the tail, so that is the part worth keeping.
pub fn fit(path: &str, width: usize) -> (out: String)
    ensures
        out@ == fit_spec(path@, width as nat),
        out@.len() == 0 || fits(out@, width as nat),
{
    proof {
        lemma_first_fitting_cut(path@, width as nat, 1);
    }
    if span_width(path) <= width {
        return path.to_owned();
    }
    let len = path.unicode_len();
    let mut cut: usize = 1;
    loop
        invariant
            1 <= cut <= len + 1,
            len == path@.len(),
            !fits(path@, width as nat),
            first_fitting_cut(path@, width as nat, 1) == first_fitting_cut(path@, width as nat, cut as int),
        decreases len + 1 - cut,
    {
        if cut > len {
            return String::new();
        }
        proof {
            reveal_strlit("\u{2026}");
        }
        let mut candidate = String::from_str("\u{2026}");
        candidate.append(path.substring_char(cut, len));
        assert(candidate@ =~= cut_head(path@, cut as int));
        if span_width(candidate.as_str()) <= width {
            return candidate;
        }
        if cut == len {
            assert(first_fitting_cut(path@, width as nat, len + 1) == -1);
            return String::new();
        }
        cut = cut + 1;
    }
}

} // verus!
