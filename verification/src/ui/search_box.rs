//! The filter bar above a file panel. The field itself is a plain
//! `input_box::Model` owned by the panel; this module only says what its
//! frame shows.
use vstd::prelude::*;

use crate::text::push_char;

verus! {

/// A panel's title as the frame shows it: the label with a space either side.
pub fn title(path_label: &str) -> (t: String)
    ensures
        t@ == seq![' '] + path_label@ + seq![' '],
{
    let mut t = String::new();
    push_char(&mut t, ' ');
    t.append(path_label);
    push_char(&mut t, ' ');
    t
}

} // verus!
