use vstd::prelude::*;
use vstd::multiset::Multiset;

use std::collections::BTreeSet;

use crate::message::Message;
use crate::update::TransferMode;
use crate::paths::{
    extension, extension_spec, file_name, file_name_spec, file_stem, file_stem_spec, is_absolute,
    is_absolute_spec, join, join_spec, parent, parent_spec,
};
use crate::text::{
    ascii_lower, chars_eq, chars_lt, chars_less, chars_of, contains_chars, contains_seq,
    ends_with, ends_with_chars, lemma_chars_lt_asymmetric, lemma_chars_lt_transitive, lowercase,
    push_char, starts_with, starts_with_chars, string_of, to_ascii_lower, to_lowercase,
};
use crate::ui::input_box::{self, EditOp, edited};

verus! {

broadcast use {
    vstd::seq_lib::group_to_multiset_ensures,
    vstd::std_specs::btree::group_btree_axioms,
    vstd::laws_cmp::group_laws_cmp,
};

/// The order a file panel lists its entries in.
#[derive(Clone, Copy, PartialEq, Eq, Debug, Structural)]
pub enum SortOrder {
    Name,
    Modified,
    Extension,
    Size,
}

/// The order after `order` in the cycle name, date, extension, size.
pub open spec fn next_order(order: SortOrder) -> SortOrder {
    match order {
        SortOrder::Name => SortOrder::Modified,
        SortOrder::Modified => SortOrder::Extension,
        SortOrder::Extension => SortOrder::Size,
        SortOrder::Size => SortOrder::Name,
    }
}

/// The label shown for each order in a panel's title.
pub open spec fn order_label(order: SortOrder) -> Seq<char> {
    match order {
        SortOrder::Name => "name"@,
        SortOrder::Modified => "date"@,
        SortOrder::Extension => "ext"@,
        SortOrder::Size => "size"@,
    }
}

impl SortOrder {
    /// The next order in the cycle.
    pub fn next(self) -> (r: Self)
        ensures
            r == next_order(self),
    {
        match self {
            Self::Name => Self::Modified,
            Self::Modified => Self::Extension,
            Self::Extension => Self::Size,
            Self::Size => Self::Name,
        }
    }

    /// The label shown for the order.
    pub fn label(self) -> (r: &'static str)
        ensures
            r@ == order_label(self),
    {
        match self {
            Self::Name => "name",
            Self::Modified => "date",
            Self::Extension => "ext",
            Self::Size => "size",
        }
    }
}

impl Default for SortOrder {
    fn default() -> (r: Self)
        ensures
            r == SortOrder::Name,
    {
        SortOrder::Name
    }
}

/// Cycling the sort order four times comes back to where it started.
pub proof fn lemma_sort_order_cycle(order: SortOrder)
    ensures
        next_order(next_order(next_order(next_order(order)))) == order,
        next_order(order) != order,
{
}

/// One entry of a directory listing.
pub struct Entry {
    pub name: String,
    pub is_dir: bool,
    pub size: u64,
    /// Last modification time, in nanoseconds from the Unix epoch, when known.
    pub modified: Option<i128>,
}

/// What a copy, move or delete acts on: one listed entry and its full path.
pub struct DeleteTarget {
    pub name: String,
    pub path: String,
    pub is_dir: bool,
}

/// `a` was modified after `b`; an entry with no known time counts as oldest.
pub open spec fn newer(a: Option<i128>, b: Option<i128>) -> bool {
    match (a, b) {
        (Some(x), Some(y)) => x > y,
        (Some(_), None) => true,
        _ => false,
    }
}

/// The extension a name sorts by: its `Path::extension`, or nothing.
pub open spec fn ext_key(name: Seq<char>) -> Seq<char> {
    ext_text(extension_spec(name))
}

/// The extension text of an optional extension: empty when there is none.
pub open spec fn ext_text(ext: Option<Seq<char>>) -> Seq<char> {
    match ext {
        Some(e) => e,
        None => Seq::empty(),
    }
}

/// `a` is listed before `b` under `order`: by name; newest first; by extension
/// and then name; or largest first.
pub open spec fn comes_before(order: SortOrder, a: Entry, b: Entry) -> bool {
    match order {
        SortOrder::Name => chars_lt(a.name@, b.name@),
        SortOrder::Modified => newer(a.modified, b.modified),
        SortOrder::Extension => chars_lt(ext_key(a.name@), ext_key(b.name@)) || (ext_key(a.name@)
            == ext_key(b.name@) && chars_lt(a.name@, b.name@)),
        SortOrder::Size => a.size > b.size,
    }
}

/// No entry of `s` is listed after one it should come before.
pub open spec fn sorted_by_order(s: Seq<Entry>, order: SortOrder) -> bool {
    forall|i: int, j: int| 0 <= i < j < s.len() ==> !comes_before(order, #[trigger] s[j], #[trigger] s[i])
}

/// Every sort order is a strict order: never both ways round, and transitive.
pub proof fn lemma_comes_before_strict(order: SortOrder, a: Entry, b: Entry, c: Entry)
    ensures
        !(comes_before(order, a, b) && comes_before(order, b, a)),
        comes_before(order, a, b) && comes_before(order, b, c) ==> comes_before(order, a, c),
{
    lemma_chars_lt_asymmetric(a.name@, b.name@);
    lemma_chars_lt_asymmetric(ext_key(a.name@), ext_key(b.name@));
    if chars_lt(a.name@, b.name@) && chars_lt(b.name@, c.name@) {
        lemma_chars_lt_transitive(a.name@, b.name@, c.name@);
    }
    if chars_lt(ext_key(a.name@), ext_key(b.name@)) && chars_lt(ext_key(b.name@), ext_key(c.name@)) {
        lemma_chars_lt_transitive(ext_key(a.name@), ext_key(b.name@), ext_key(c.name@));
    }
}

/// `a` and `b` have the same sort key under `order`: the same name (which
/// also gives the same extension), the same time, or the same size.
pub open spec fn tie(order: SortOrder, a: Entry, b: Entry) -> bool {
    match order {
        SortOrder::Name | SortOrder::Extension => a.name@ == b.name@,
        SortOrder::Modified => a.modified == b.modified,
        SortOrder::Size => a.size == b.size,
    }
}

/// The entries of `s` with the same sort key as `x`, in their order in `s`.
pub open spec fn ties_of(s: Seq<Entry>, order: SortOrder, x: Entry) -> Seq<Entry>
    decreases s.len(),
{
    if s.len() == 0 {
        Seq::empty()
    } else {
        let prev = ties_of(s.drop_last(), order, x);
        if tie(order, s.last(), x) {
            prev.push(s.last())
        } else {
            prev
        }
    }
}

/// Entries with the same sort key are interchangeable for the order, and
/// neither comes before the other.
proof fn lemma_tie_respects_order(order: SortOrder, a: Entry, b: Entry, c: Entry)
    requires
        tie(order, a, b),
    ensures
        comes_before(order, a, c) == comes_before(order, b, c),
        comes_before(order, c, a) == comes_before(order, c, b),
        !comes_before(order, a, b),
{
    lemma_chars_lt_asymmetric(a.name@, b.name@);
    lemma_chars_lt_asymmetric(ext_key(a.name@), ext_key(b.name@));
}

/// Taking the ties of a concatenation takes them piece by piece.
proof fn lemma_ties_of_add(a: Seq<Entry>, b: Seq<Entry>, order: SortOrder, x: Entry)
    ensures
        ties_of(a + b, order, x) == ties_of(a, order, x) + ties_of(b, order, x),
    decreases b.len(),
{
    if b.len() == 0 {
        assert(a + b =~= a);
    } else {
        lemma_ties_of_add(a, b.drop_last(), order, x);
        assert((a + b).drop_last() =~= a + b.drop_last());
    }
}

/// A sequence with nothing tied with `x` has no ties.
proof fn lemma_ties_of_none(s: Seq<Entry>, order: SortOrder, x: Entry)
    requires
        forall|k: int| 0 <= k < s.len() ==> !tie(order, #[trigger] s[k], x),
    ensures
        ties_of(s, order, x) == Seq::<Entry>::empty(),
    decreases s.len(),
{
    if s.len() > 0 {
        lemma_ties_of_none(s.drop_last(), order, x);
    }
}

/// Inserting `e` where a sorted listing puts it: before the first entry it
/// comes before, after every entry it does not. The ties of any key keep
/// their order, `e` joining its own key's ties last.
proof fn lemma_insert_keeps_ties(prev: Seq<Entry>, pos: int, e: Entry, order: SortOrder, x: Entry)
    requires
        0 <= pos <= prev.len(),
        sorted_by_order(prev, order),
        pos == prev.len() || comes_before(order, e, prev[pos]),
    ensures
        ties_of(prev.insert(pos, e), order, x) == (if tie(order, e, x) {
            ties_of(prev, order, x).push(e)
        } else {
            ties_of(prev, order, x)
        }),
{
    let head = prev.take(pos);
    let tail = prev.skip(pos);
    assert(prev =~= head + tail);
    assert(prev.insert(pos, e) =~= head + (seq![e] + tail));
    lemma_ties_of_add(head, tail, order, x);
    lemma_ties_of_add(head, seq![e] + tail, order, x);
    lemma_ties_of_add(seq![e], tail, order, x);
    assert(seq![e].drop_last() =~= Seq::<Entry>::empty());
    assert(ties_of(Seq::<Entry>::empty(), order, x) =~= Seq::<Entry>::empty());
    assert(seq![e].last() == e);
    if tie(order, e, x) {
        assert forall|k: int| 0 <= k < tail.len() implies !tie(order, #[trigger] tail[k], x) by {
            if tie(order, tail[k], x) {
                // Same key as e, so it would come after prev[pos] while lying
                // at or behind it.
                assert(tie(order, tail[k], e));
                lemma_tie_respects_order(order, tail[k], e, prev[pos]);
                if k == 0 {
                    lemma_tie_respects_order(order, prev[pos], prev[pos], prev[pos]);
                } else {
                    assert(tail[k] == prev[pos + k]);
                }
            }
        }
        lemma_ties_of_none(tail, order, x);
        assert(ties_of(seq![e], order, x) =~= seq![e]);
    } else {
        assert(ties_of(seq![e], order, x) =~= Seq::<Entry>::empty());
    }
}

/// Whether the entry named `a`, with extension `ext_a`, is listed before the
/// entry named `b`, with extension `ext_b`, when sorting by extension: by
/// extension text first (no extension counting as empty), then by name.
pub fn before_by_extension(a: &str, ext_a: Option<String>, b: &str, ext_b: Option<String>) -> (r: bool)
    ensures
        r == (chars_lt(ext_text(opt_view(ext_a)), ext_text(opt_view(ext_b))) || (ext_text(opt_view(ext_a))
            == ext_text(opt_view(ext_b)) && chars_lt(a@, b@))),
{
    let ea = match ext_a {
        Some(e) => chars_of(e.as_str()),
        None => Vec::new(),
    };
    let eb = match ext_b {
        Some(e) => chars_of(e.as_str()),
        None => Vec::new(),
    };
    if chars_less(&ea, &eb) {
        true
    } else if crate::text::chars_eq(&ea, &eb) {
        chars_less(&chars_of(a), &chars_of(b))
    } else {
        false
    }
}

/// Whether `a` is listed before `b` under `order`.
pub fn before(order: SortOrder, a: &Entry, b: &Entry) -> (r: bool)
    ensures
        r == comes_before(order, *a, *b),
{
    match order {
        SortOrder::Name => chars_less(&chars_of(a.name.as_str()), &chars_of(b.name.as_str())),
        SortOrder::Modified => match (a.modified, b.modified) {
            (Some(x), Some(y)) => x > y,
            (Some(_), None) => true,
            _ => false,
        },
        SortOrder::Extension => before_by_extension(
            a.name.as_str(),
            extension(a.name.as_str()),
            b.name.as_str(),
            extension(b.name.as_str()),
        ),
        SortOrder::Size => a.size > b.size,
    }
}

/// `out` is `input` sorted under `order`: the same entries, none listed after
/// one it should come before, and entries with the same sort key in the order
/// `input` has them.
pub open spec fn sorted_from(out: Seq<Entry>, input: Seq<Entry>, order: SortOrder) -> bool {
    &&& out.to_multiset() == input.to_multiset()
    &&& sorted_by_order(out, order)
    &&& forall|x: Entry| #[trigger] ties_of(out, order, x) == ties_of(input, order, x)
}

/// The listing reordered under `order`: the same entries, none listed after
/// one it should come before. Entries that tie keep their listing order.
pub fn sort_entries(entries: Vec<Entry>, order: SortOrder) -> (out: Vec<Entry>)
    ensures
        sorted_from(out@, entries@, order),
{
    let ghost orig = entries@;
    let mut rest = entries;
    let mut out: Vec<Entry> = Vec::new();
    while rest.len() > 0
        invariant
            sorted_by_order(out@, order),
            out@.to_multiset().add(rest@.to_multiset()) == orig.to_multiset(),
            rest@.len() <= orig.len(),
            rest@ == orig.skip(orig.len() - rest@.len()),
            forall|x: Entry| #[trigger] ties_of(out@, order, x) == ties_of(
                orig.take(orig.len() - rest@.len()),
                order,
                x,
            ),
        decreases rest@.len(),
    {
        let ghost before_rest = rest@;
        let ghost done = orig.len() - rest@.len();
        let e = rest.remove(0);
        proof {
            assert(before_rest == seq![e] + rest@);
            vstd::seq_lib::lemma_multiset_commutative(seq![e], rest@);
            assert(seq![e].to_multiset() =~= Multiset::<Entry>::empty().insert(e)) by {
                assert(seq![e] =~= Seq::<Entry>::empty().push(e));
            }
        }
        let mut pos: usize = 0;
        while pos < out.len()
            invariant
                pos <= out@.len(),
                forall|k: int| 0 <= k < pos ==> !comes_before(order, e, #[trigger] out@[k]),
            ensures
                pos <= out@.len(),
                forall|k: int| 0 <= k < pos ==> !comes_before(order, e, #[trigger] out@[k]),
                pos == out@.len() || comes_before(order, e, out@[pos as int]),
            decreases out@.len() - pos,
        {
            if before(order, &e, &out[pos]) {
                break;
            }
            pos = pos + 1;
        }
        let ghost prev = out@;
        out.insert(pos, e);
        proof {
            assert(out@ =~= prev.take(pos as int) + seq![e] + prev.skip(pos as int));
            assert(prev =~= prev.take(pos as int) + prev.skip(pos as int));
            vstd::seq_lib::lemma_multiset_commutative(prev.take(pos as int), prev.skip(pos as int));
            vstd::seq_lib::lemma_multiset_commutative(prev.take(pos as int) + seq![e], prev.skip(pos as int));
            vstd::seq_lib::lemma_multiset_commutative(prev.take(pos as int), seq![e]);
            assert(out@.to_multiset() =~= prev.to_multiset().insert(e));
            assert(orig.take(done + 1).drop_last() =~= orig.take(done));
            assert(orig.take(done + 1).last() == e);
            assert(rest@ =~= orig.skip(done + 1));
            assert forall|x: Entry| #[trigger] ties_of(out@, order, x) == ties_of(orig.take(done + 1), order, x) by {
                lemma_insert_keeps_ties(prev, pos as int, e, order, x);
            }
            assert forall|i: int, j: int| 0 <= i < j < out@.len() implies !comes_before(
                order,
                #[trigger] out@[j],
                #[trigger] out@[i],
            ) by {
                if j < pos {
                    assert(out@[i] == prev[i] && out@[j] == prev[j]);
                } else if j == pos {
                    assert(out@[i] == prev[i]);
                } else if i > pos {
                    assert(out@[i] == prev[i - 1] && out@[j] == prev[j - 1]);
                } else if i == pos {
                    // e against a later entry: e is before prev[pos], which
                    // nothing after it comes before.
                    assert(out@[j] == prev[j - 1]);
                    assert(comes_before(order, e, prev[pos as int]));
                    lemma_comes_before_strict(order, prev[j - 1], e, prev[pos as int]);
                    if j - 1 > pos {
                        assert(!comes_before(order, prev[j - 1], prev[pos as int]));
                    }
                } else {
                    assert(out@[i] == prev[i] && out@[j] == prev[j - 1]);
                }
            }
        }
    }
    assert(orig.take(orig.len() as int) =~= orig);
    assert(rest@.to_multiset() =~= Multiset::<Entry>::empty());
    assert(out@.to_multiset() =~= orig.to_multiset());
    assert forall|x: Entry| #[trigger] ties_of(out@, order, x) == ties_of(orig, order, x) by {}
    out
}

/// The Nerd Font folder icon.
pub open spec fn folder_icon() -> char {
    '\u{f024b}'
}

/// The Nerd Font file icon.
pub open spec fn file_icon() -> char {
    '\u{f0219}'
}

/// The line an entry is listed as: an icon and the name, a directory's with a
/// trailing slash.
pub open spec fn entry_label_spec(e: Entry) -> Seq<char> {
    if e.is_dir {
        seq![folder_icon(), ' '] + e.name@ + seq!['/']
    } else {
        seq![file_icon(), ' '] + e.name@
    }
}

/// The line an entry is listed as.
pub fn entry_label(e: &Entry) -> (s: String)
    ensures
        s@ == entry_label_spec(*e),
{
    let mut s = String::new();
    if e.is_dir {
        push_char(&mut s, '\u{f024b}');
        push_char(&mut s, ' ');
        s.append(e.name.as_str());
        push_char(&mut s, '/');
    } else {
        push_char(&mut s, '\u{f0219}');
        push_char(&mut s, ' ');
        s.append(e.name.as_str());
    }
    s
}

/// What marks a panel picking the destination of `target`: a squiggly arrow
/// for a move, a plain one for a copy, nothing otherwise.
pub open spec fn target_prefix(target: Option<TransferMode>) -> Seq<char> {
    match target {
        Some(m) => if m.moves() {
            "\u{219d}  "@
        } else if m.copies() {
            "\u{2192}  "@
        } else {
            Seq::empty()
        },
        None => Seq::empty(),
    }
}

/// The label a panel on `dir` sorted by `order` shows above its listing.
pub open spec fn panel_title_spec(dir: Seq<char>, order: SortOrder, target: Option<TransferMode>) -> Seq<char> {
    target_prefix(target) + dir + " [Sorted by: "@ + order_label(order) + "]"@
}

/// The label a panel on `dir` sorted by `order` shows above its listing,
/// marked as the destination of `target` when it is picking one.
pub fn panel_title(dir: &str, order: SortOrder, target: Option<TransferMode>) -> (s: String)
    ensures
        s@ == panel_title_spec(dir@, order, target),
{
    proof {
        reveal_strlit("\u{219d}  ");
        reveal_strlit("\u{2192}  ");
        reveal_strlit(" [Sorted by: ");
        reveal_strlit("]");
    }
    let mut s = match target {
        Some(m) => if m.is_move() {
            String::from_str("\u{219d}  ")
        } else if m.is_copy() {
            String::from_str("\u{2192}  ")
        } else {
            String::new()
        },
        None => String::new(),
    };
    s.append(dir);
    s.append(" [Sorted by: ");
    s.append(order.label());
    s.append("]");
    s
}

/// One file panel: the directory it lists, the highlighted entry, the marked
/// entries, and the text fields that work on the listing.
pub struct Model {
    pub current_dir: String,
    pub entries: Vec<Entry>,
    /// Position of the highlighted entry among the visible ones.
    pub selection: usize,
    /// Marked entries, by their index in `entries`.
    pub selected: BTreeSet<usize>,
    /// The filter bar; entries whose names do not contain its text are hidden.
    pub search: input_box::Model,
    pub new_path_input: input_box::Model,
    pub goto_input: input_box::Model,
    pub delete_confirm: bool,
    pub delete_targets: Vec<DeleteTarget>,
    pub sort_order: SortOrder,
    /// While set, the panel lists directories only: it is picking the
    /// destination of a copy or move, which is always a directory.
    pub dirs_only: bool,
}

/// Whether an entry is shown under the lower-cased filter `filter`: it must be
/// a directory while only directories are listed, and its lower-cased name
/// must contain the filter unless the filter is empty.
pub open spec fn shows(e: Entry, filter: Seq<char>, dirs_only: bool) -> bool {
    (!dirs_only || e.is_dir) && (filter.len() == 0 || contains_seq(lowercase(e.name@), filter))
}

/// Indices of the shown entries among the first `upto`, in listing order.
pub open spec fn visible_upto(entries: Seq<Entry>, filter: Seq<char>, dirs_only: bool, upto: int) -> Seq<usize>
    decreases upto,
{
    if upto <= 0 {
        Seq::empty()
    } else {
        let prev = visible_upto(entries, filter, dirs_only, upto - 1);
        if shows(entries[upto - 1], filter, dirs_only) {
            prev.push((upto - 1) as usize)
        } else {
            prev
        }
    }
}

/// The entries at the marked visible positions, in listing order.
pub open spec fn marked_upto(vis: Seq<usize>, marks: Set<usize>, entries: Seq<Entry>, upto: int) -> Seq<Entry>
    decreases upto,
{
    if upto <= 0 {
        Seq::empty()
    } else {
        let prev = marked_upto(vis, marks, entries, upto - 1);
        if marks.contains(vis[upto - 1]) {
            prev.push(entries[vis[upto - 1] as int])
        } else {
            prev
        }
    }
}

/// `t` names entry `e` of the directory `dir`.
pub open spec fn target_for(t: DeleteTarget, dir: Seq<char>, e: Entry) -> bool {
    t.name@ == e.name@ && t.path@ == join_spec(dir, e.name@) && t.is_dir == e.is_dir
}

/// `ts` names the entries `es` of `dir`, one for one and in order.
pub open spec fn targets_for(ts: Seq<DeleteTarget>, dir: Seq<char>, es: Seq<Entry>) -> bool {
    ts.len() == es.len() && forall|i: int| 0 <= i < ts.len() ==> target_for(#[trigger] ts[i], dir, es[i])
}

/// Indices in `visible_upto` are in range, increasing, and exactly the shown
/// entries.
pub proof fn lemma_visible_upto(entries: Seq<Entry>, filter: Seq<char>, dirs_only: bool, upto: int)
    requires
        0 <= upto <= entries.len(),
        entries.len() <= usize::MAX,
    ensures
        forall|k: int| 0 <= k < visible_upto(entries, filter, dirs_only, upto).len() ==> #[trigger] visible_upto(
            entries,
            filter,
            dirs_only,
            upto,
        )[k] < upto,
        forall|k: int, l: int|
            0 <= k < l < visible_upto(entries, filter, dirs_only, upto).len() ==> #[trigger] visible_upto(
                entries,
                filter,
                dirs_only,
                upto,
            )[k] < #[trigger] visible_upto(entries, filter, dirs_only, upto)[l],
        forall|k: int| 0 <= k < visible_upto(entries, filter, dirs_only, upto).len() ==> shows(
            entries[#[trigger] visible_upto(entries, filter, dirs_only, upto)[k] as int],
            filter,
            dirs_only,
        ),
        forall|i: int|
            0 <= i < upto && shows(entries[i], filter, dirs_only) ==> #[trigger] visible_upto(
                entries,
                filter,
                dirs_only,
                upto,
            ).contains(i as usize),
    decreases upto,
{
    if upto > 0 {
        lemma_visible_upto(entries, filter, dirs_only, upto - 1);
        let prev = visible_upto(entries, filter, dirs_only, upto - 1);
        let cur = visible_upto(entries, filter, dirs_only, upto);
        assert forall|k: int, l: int| 0 <= k < l < cur.len() implies #[trigger] cur[k] < #[trigger] cur[l] by {
            assert(cur[k] == prev[k]);
            if l < prev.len() {
                assert(cur[l] == prev[l]);
            }
        }
        assert forall|k: int| 0 <= k < cur.len() implies shows(entries[#[trigger] cur[k] as int], filter, dirs_only) by {
            if k < prev.len() {
                assert(cur[k] == prev[k]);
            }
        }
        assert forall|i: int| 0 <= i < upto && shows(entries[i], filter, dirs_only) implies #[trigger] cur.contains(
            i as usize,
        ) by {
            if i < upto - 1 {
                assert(prev.contains(i as usize));
                let k = choose|k: int| 0 <= k < prev.len() && prev[k] == i as usize;
                assert(cur[k] == prev[k]);
            } else {
                assert(cur[cur.len() - 1] == i as usize);
            }
        }
    }
}

impl Model {
    /// The filter's text, lower-cased as names are matched against it; an
    /// empty filter stays empty.
    pub open spec fn filter_key(&self) -> Seq<char> {
        if self.search.text@.len() == 0 {
            Seq::empty()
        } else {
            lowercase(self.search.text@)
        }
    }

    /// Indices into `entries` of the entries the panel shows, in order.
    pub open spec fn visible(&self) -> Seq<usize> {
        visible_upto(self.entries@, self.filter_key(), self.dirs_only, self.entries@.len() as int)
    }

    /// The entries a copy, move or delete acts on: the marked visible entries
    /// if any entry is marked, otherwise the highlighted one, if there is one.
    pub open spec fn chosen(&self) -> Seq<Entry> {
        let vis = self.visible();
        if self.selected@.is_empty() {
            if self.selection < vis.len() {
                seq![self.entries@[vis[self.selection as int] as int]]
            } else {
                Seq::empty()
            }
        } else {
            marked_upto(vis, self.selected@, self.entries@, vis.len() as int)
        }
    }

    /// The panel's text fields keep their cursors inside their text.
    pub open spec fn wf(&self) -> bool {
        &&& self.search.wf()
        &&& self.new_path_input.wf()
        &&& self.goto_input.wf()
    }

    /// Number of entries shown.
    pub fn entry_count(&self) -> (n: usize)
        ensures
            n == self.visible().len(),
    {
        self.visible_entries().len()
    }

    /// Indices into `entries` of the entries shown, in listing order.
    pub fn visible_entries(&self) -> (v: Vec<usize>)
        ensures
            v@ == self.visible(),
    {
        let filter = if self.search.text.as_str().is_empty() {
            Vec::new()
        } else {
            chars_of(to_lowercase(self.search.text.as_str()).as_str())
        };
        let mut v: Vec<usize> = Vec::new();
        for i in 0..self.entries.len()
            invariant
                filter@ == self.filter_key(),
                v@ == visible_upto(self.entries@, filter@, self.dirs_only, i as int),
        {
            let e = &self.entries[i];
            let shown = if self.dirs_only && !e.is_dir {
                false
            } else if filter.len() == 0 {
                true
            } else {
                contains_chars(&chars_of(to_lowercase(e.name.as_str()).as_str()), &filter)
            };
            if shown {
                v.push(i);
            }
        }
        v
    }

    /// The entries a copy, move or delete acts on: marked files if any, otherwise
    /// the file under the cursor.
    pub fn action_targets(&self) -> (ts: Vec<DeleteTarget>)
        ensures
            targets_for(ts@, self.current_dir@, self.chosen()),
    {
        let vis = self.visible_entries();
        // Reading the length tells the proof that the listing fits in a `usize`.
        let _count = self.entries.len();
        proof {
            lemma_visible_upto(self.entries@, self.filter_key(), self.dirs_only, self.entries@.len() as int);
        }
        let mut ts: Vec<DeleteTarget> = Vec::new();
        if self.selected.is_empty() {
            if self.selection < vis.len() {
                let e = &self.entries[vis[self.selection]];
                ts.push(DeleteTarget {
                    name: e.name.clone(),
                    path: join(self.current_dir.as_str(), e.name.as_str()),
                    is_dir: e.is_dir,
                });
            }
            return ts;
        }
        for k in 0..vis.len()
            invariant
                vis@ == self.visible(),
                forall|j: int| 0 <= j < vis@.len() ==> #[trigger] vis@[j] < self.entries@.len(),
                targets_for(ts@, self.current_dir@, marked_upto(vis@, self.selected@, self.entries@, k as int)),
        {
            let i = vis[k];
            if self.selected.contains(&i) {
                let e = &self.entries[i];
                ts.push(DeleteTarget {
                    name: e.name.clone(),
                    path: join(self.current_dir.as_str(), e.name.as_str()),
                    is_dir: e.is_dir,
                });
            }
        }
        ts
    }

    /// Mark the entry under the cursor if it is unmarked, unmark it otherwise.
    pub fn toggle_under_cursor(&mut self)
        ensures
            final(self).selected@ == marked_under_cursor(*old(self)),
            *final(self) == (Model { selected: final(self).selected, ..*old(self) }),
    {
        let vis = self.visible_entries();
        if self.selection < vis.len() {
            let i = vis[self.selection];
            self.toggle_selected(i);
        }
    }

    /// Mark the entry at raw index `index` if it is unmarked, unmark it otherwise.
    pub fn toggle_selected(&mut self, index: usize)
        ensures
            final(self).selected@ == (if old(self).selected@.contains(index) {
                old(self).selected@.remove(index)
            } else {
                old(self).selected@.insert(index)
            }),
            *final(self) == (Model { selected: final(self).selected, ..*old(self) }),
    {
        if !self.selected.remove(&index) {
            self.selected.insert(index);
        }
    }
}

/// The archive formats a panel can unpack.
#[derive(Clone, Copy, PartialEq, Eq, Debug, Structural)]
pub enum ArchiveFormat {
    Zip,
    TarGz,
}

/// File-system work a panel hands to its caller. Each is followed by a call
/// back into the panel: `navigate_to` (and `reselect`) with the listing read
/// for `List`, or `complete` with how the other jobs went.
pub enum PanelRequest {
    /// Nothing to do.
    Nothing,
    /// Read `path` and show it; then put the cursor on the entry named
    /// `reselect`, when there is such an entry.
    List { path: String, reselect: Option<String> },
    /// Create `target` (a directory when `is_dir`, with any missing parents;
    /// otherwise a file, creating its parent directories first).
    Create { target: String, is_dir: bool },
    /// Resolve `text` against the home directory (see `resolve_goto`) and go
    /// there if it is a directory.
    Goto { text: String },
    /// Remove these entries, directories with everything inside them.
    Remove { targets: Vec<DeleteTarget> },
    /// Pack `sources` into the zip archive `dest`.
    Zip { sources: Vec<String>, dest: String },
    /// Create the directory `dest` and unpack `archive` into it.
    Unzip { archive: String, dest: String, format: ArchiveFormat },
}

/// How a job the panel asked for went.
pub enum Outcome {
    Created(bool),
    GotoChecked { target: String, is_dir: bool },
    Removed,
    Zipped(bool),
    Unzipped(bool),
}

/// The text view of an optional string.
pub open spec fn opt_view(o: Option<String>) -> Option<Seq<char>> {
    match o {
        Some(s) => Some(s@),
        None => None,
    }
}

/// A field that is empty and does not have the keys.
pub open spec fn closed_field(f: input_box::Model) -> bool {
    f.text@ == Seq::<char>::empty() && !f.active && f.pos() == 0
}

/// A field that is empty and has the keys.
pub open spec fn opened_field(f: input_box::Model) -> bool {
    f.text@ == Seq::<char>::empty() && f.active && f.pos() == 0
}

/// The position of the first `x` in `s` at or after `from`, or -1.
pub open spec fn first_pos(s: Seq<usize>, x: usize, from: int) -> int
    decreases s.len() - from,
{
    if from < 0 || from >= s.len() {
        -1
    } else if s[from] == x {
        from
    } else {
        first_pos(s, x, from + 1)
    }
}

/// The raw index of the first entry named `name` at or after `from`, or -1.
pub open spec fn first_named(entries: Seq<Entry>, name: Seq<char>, from: int) -> int
    decreases entries.len() - from,
{
    if from < 0 || from >= entries.len() {
        -1
    } else if entries[from].name@ == name {
        from
    } else {
        first_named(entries, name, from + 1)
    }
}

/// The first visible position at or after `from` whose entry is named `name`,
/// or -1.
pub open spec fn first_visible_named(entries: Seq<Entry>, vis: Seq<usize>, name: Seq<char>, from: int) -> int
    decreases vis.len() - from,
{
    if from < 0 || from >= vis.len() {
        -1
    } else if entries[vis[from] as int].name@ == name {
        from
    } else {
        first_visible_named(entries, vis, name, from + 1)
    }
}

/// Where the cursor goes when the filter changes: onto the entry it was on,
/// at that entry's position in the new view, or to the top when that entry is
/// no longer shown.
pub open spec fn refocused(old_vis: Seq<usize>, selection: int, new_vis: Seq<usize>) -> int {
    if 0 <= selection < old_vis.len() {
        let p = first_pos(new_vis, old_vis[selection], 0);
        if p >= 0 { p } else { 0 }
    } else {
        0
    }
}

/// One step up, stopping at the top.
pub open spec fn step_up(selection: int) -> int {
    if selection > 0 { selection - 1 } else { 0 }
}

/// One step down, stopping at the last of `count` entries.
pub open spec fn step_down(selection: int, count: int) -> int {
    if count > 0 {
        if selection + 1 < count - 1 { selection + 1 } else { count - 1 }
    } else {
        selection
    }
}

/// Whether a filter message changes what the filter matches, so the cursor
/// has to be placed again.
pub open spec fn filter_resets(msg: Message) -> bool {
    match msg {
        Message::FilterChar(_) | Message::FilterBackspace | Message::ExitFilter => true,
        _ => false,
    }
}

/// The filter bar `new` is `old` after a filter message: `/` gives it the
/// keys with the cursor at the end of what it already holds, typing edits it,
/// confirming locks it as it is, and escape clears it.
pub open spec fn filter_edited(old: input_box::Model, new: input_box::Model, msg: Message) -> bool {
    match msg {
        Message::EnterFilter => new.text@ == old.text@ && new.active && new.pos() == old.text@.len(),
        Message::FilterChar(c) => edited(old, new, EditOp::Char(c)) && new.active == old.active,
        Message::FilterBackspace => edited(old, new, EditOp::Backspace) && new.active == old.active,
        Message::ConfirmFilter => new.text@ == old.text@ && !new.active && new.pos() == old.pos(),
        Message::ExitFilter => closed_field(new),
        _ => false,
    }
}

/// `s` with every ASCII letter lower-cased.
pub open spec fn ascii_lower_seq(s: Seq<char>) -> Seq<char> {
    s.map_values(|c: char| ascii_lower(c))
}

/// `s` with `suffix` taken off its end for as long as it ends with it.
pub open spec fn trim_suffix_all(s: Seq<char>, suffix: Seq<char>) -> Seq<char>
    decreases s.len(),
{
    if suffix.len() > 0 && ends_with(s, suffix) {
        trim_suffix_all(s.take(s.len() - suffix.len()), suffix)
    } else {
        s
    }
}

pub open spec fn zip_suffix() -> Seq<char> {
    seq!['.', 'z', 'i', 'p']
}

pub open spec fn tar_gz_suffix() -> Seq<char> {
    seq!['.', 't', 'a', 'r', '.', 'g', 'z']
}

/// The name of the archive a zip of `count` entries is written to: one entry
/// named `name` gives `<stem>.zip`, where a directory's stem is its whole name
/// and a file's is `stem` (its name without the extension) when it has one;
/// several give `archive.zip`.
pub open spec fn archive_file(count: nat, name: Seq<char>, is_dir: bool, stem: Option<Seq<char>>) -> Seq<char> {
    if count == 1 {
        let base = if is_dir {
            name
        } else {
            match stem {
                Some(s) => s,
                None => name,
            }
        };
        base + zip_suffix()
    } else {
        "archive.zip"@
    }
}

/// The archive a zip of `chosen` is written to.
pub open spec fn archive_name(chosen: Seq<Entry>) -> Seq<char> {
    archive_file(chosen.len(), chosen[0].name@, chosen[0].is_dir, file_stem_spec(chosen[0].name@))
}

/// Where `text` typed into the "go to" field leads from `dir`: `~` and `~/…`
/// are taken from the home directory when it is known; otherwise an absolute
/// path is itself and a relative one is joined onto `dir`.
pub open spec fn goto_target(text: Seq<char>, dir: Seq<char>, home: Option<Seq<char>>) -> Seq<char> {
    let expanded = if starts_with(text, seq!['~', '/']) {
        match home {
            Some(h) => Some(join_spec(h, text.skip(2))),
            None => None,
        }
    } else if text == seq!['~'] {
        home
    } else {
        None
    };
    match expanded {
        Some(t) => t,
        None => if is_absolute_spec(text) {
            text
        } else {
            join_spec(dir, text)
        },
    }
}

/// What unpacking entry `name` of directory `dir` asks for, given the name's
/// extension `ext`: a `.zip` (by extension, any case) unpacks beside itself
/// into its name with every trailing `.zip` removed; a `.tar.gz` (any case)
/// into its name without that suffix; anything else is left alone.
pub open spec fn unzip_plan_spec(dir: Seq<char>, name: Seq<char>, ext: Option<Seq<char>>, req: PanelRequest) -> bool {
    if ascii_lower_seq(ext_text(ext)) == seq!['z', 'i', 'p'] {
        req matches PanelRequest::Unzip { archive, dest, format } && archive@ == join_spec(dir, name)
            && dest@ == join_spec(dir, trim_suffix_all(name, zip_suffix())) && format == ArchiveFormat::Zip
    } else if ends_with(ascii_lower_seq(name), tar_gz_suffix()) {
        req matches PanelRequest::Unzip { archive, dest, format } && archive@ == join_spec(dir, name)
            && dest@ == join_spec(dir, name.take(name.len() - 7)) && format == ArchiveFormat::TarGz
    } else {
        req is Nothing
    }
}

/// What unpacking the highlighted entry asks for, if anything.
pub open spec fn unzip_request(m: Model, req: PanelRequest) -> bool {
    let vis = m.visible();
    if m.selection < vis.len() {
        let name = m.entries@[vis[m.selection as int] as int].name@;
        unzip_plan_spec(m.current_dir@, name, extension_spec(name), req)
    } else {
        req is Nothing
    }
}

/// What zipping the chosen entries asks for, if anything.
pub open spec fn zip_request(m: Model, req: PanelRequest) -> bool {
    let chosen = m.chosen();
    if chosen.len() == 0 {
        req is Nothing
    } else {
        req matches PanelRequest::Zip { sources, dest } && sources@.len() == chosen.len() && (forall|i: int|
            0 <= i < chosen.len() ==> (#[trigger] sources@[i])@ == join_spec(m.current_dir@, chosen[i].name@))
            && dest@ == join_spec(m.current_dir@, archive_name(chosen))
    }
}

/// `req` lists `path`, re-selecting the entry named `reselect` afterwards.
pub open spec fn lists(req: PanelRequest, path: Seq<char>, reselect: Option<Seq<char>>) -> bool {
    req matches PanelRequest::List { path: p, reselect: r } && p@ == path && opt_view(r) == reselect
}

/// The marks after marking or unmarking the entry under the cursor: its index
/// in the listing goes in if it was out and out if it was in; with no entry
/// under the cursor the marks stay.
pub open spec fn marked_under_cursor(m: Model) -> Set<usize> {
    let vis = m.visible();
    if m.selection < vis.len() {
        let i = vis[m.selection as int];
        if m.selected@.contains(i) {
            m.selected@.remove(i)
        } else {
            m.selected@.insert(i)
        }
    } else {
        m.selected@
    }
}

/// One message applied to a file panel: `old` becomes `new`, and `req` is
/// the file-system work the message needs done.
pub open spec fn stepped(old: Model, msg: Message, new: Model, req: PanelRequest) -> bool {
    match msg {
        Message::EnterFilter | Message::FilterChar(_) | Message::FilterBackspace
        | Message::ConfirmFilter | Message::ExitFilter => {
            &&& filter_edited(old.search, new.search, msg)
            &&& new == (Model { search: new.search, selection: new.selection, ..old })
            &&& new.selection == (if filter_resets(msg) {
                refocused(old.visible(), old.selection as int, new.visible())
            } else {
                old.selection as int
            })
            &&& req is Nothing
        },
        Message::NewPath => opened_field(new.new_path_input) && new == (Model {
            new_path_input: new.new_path_input,
            ..old
        }) && req is Nothing,
        Message::NewPathChar(c) => edited(old.new_path_input, new.new_path_input, EditOp::Char(c))
            && new.new_path_input.active == old.new_path_input.active && new == (Model {
            new_path_input: new.new_path_input,
            ..old
        }) && req is Nothing,
        Message::NewPathBackspace => edited(old.new_path_input, new.new_path_input, EditOp::Backspace)
            && new.new_path_input.active == old.new_path_input.active && new == (Model {
            new_path_input: new.new_path_input,
            ..old
        }) && req is Nothing,
        Message::NewPathCancel => closed_field(new.new_path_input) && new == (Model {
            new_path_input: new.new_path_input,
            ..old
        }) && req is Nothing,
        Message::NewPathConfirm => {
            let text = old.new_path_input.text@;
            &&& closed_field(new.new_path_input)
            &&& new == (Model { new_path_input: new.new_path_input, ..old })
            &&& if text.len() == 0 {
                req is Nothing
            } else {
                req matches PanelRequest::Create { target, is_dir } && target@ == join_spec(
                    old.current_dir@,
                    text,
                ) && is_dir == ends_with(text, seq!['/'])
            }
        },
        Message::GotoPath => opened_field(new.goto_input) && new == (Model {
            goto_input: new.goto_input,
            ..old
        }) && req is Nothing,
        Message::GotoPathChar(c) => edited(old.goto_input, new.goto_input, EditOp::Char(c))
            && new.goto_input.active == old.goto_input.active && new == (Model {
            goto_input: new.goto_input,
            ..old
        }) && req is Nothing,
        Message::GotoPathBackspace => edited(old.goto_input, new.goto_input, EditOp::Backspace)
            && new.goto_input.active == old.goto_input.active && new == (Model {
            goto_input: new.goto_input,
            ..old
        }) && req is Nothing,
        Message::GotoPathCancel => closed_field(new.goto_input) && new == (Model {
            goto_input: new.goto_input,
            ..old
        }) && req is Nothing,
        Message::GotoPathConfirm => {
            let text = old.goto_input.text@;
            &&& closed_field(new.goto_input)
            &&& new == (Model { goto_input: new.goto_input, ..old })
            &&& if text.len() == 0 {
                req is Nothing
            } else {
                req matches PanelRequest::Goto { text: t } && t@ == text
            }
        },
        Message::DeleteFiles => {
            &&& req is Nothing
            &&& if old.chosen().len() == 0 {
                new == old
            } else {
                &&& new.delete_confirm
                &&& targets_for(new.delete_targets@, old.current_dir@, old.chosen())
                &&& new == (Model { delete_confirm: true, delete_targets: new.delete_targets, ..old })
            }
        },
        Message::DeleteCancel => !new.delete_confirm && new.delete_targets@.len() == 0 && new == (
        Model { delete_confirm: false, delete_targets: new.delete_targets, ..old }) && req is Nothing,
        Message::DeleteConfirm => {
            &&& new.delete_targets@.len() == 0
            &&& new.selected@.is_empty()
            &&& new == (Model {
                delete_confirm: false,
                delete_targets: new.delete_targets,
                selected: new.selected,
                ..old
            })
            &&& req matches PanelRequest::Remove { targets } && targets == old.delete_targets
        },
        Message::SelectUp => new == (Model { selection: step_up(old.selection as int) as usize, ..old })
            && req is Nothing,
        Message::SelectDown => new == (Model {
            selection: step_down(old.selection as int, old.visible().len() as int) as usize,
            ..old
        }) && req is Nothing,
        Message::MarkSelectUp => {
            &&& new.selected@ == marked_under_cursor(old)
            &&& new == (Model {
                selected: new.selected,
                selection: step_up(old.selection as int) as usize,
                ..old
            })
            &&& req is Nothing
        },
        Message::MarkSelectDown => {
            &&& new.selected@ == marked_under_cursor(old)
            &&& new == (Model {
                selected: new.selected,
                selection: step_down(old.selection as int, old.visible().len() as int) as usize,
                ..old
            })
            &&& req is Nothing
        },
        Message::ClearSelection => new.selected@.is_empty() && new == (Model {
            selected: new.selected,
            ..old
        }) && req is Nothing,
        Message::CycleSort => {
            &&& new.sort_order == next_order(old.sort_order)
            &&& sorted_from(new.entries@, old.entries@, new.sort_order)
            &&& new.selected@.is_empty()
            &&& new == (Model {
                sort_order: new.sort_order,
                entries: new.entries,
                selection: 0,
                selected: new.selected,
                ..old
            })
            &&& req is Nothing
        },
        Message::ZipFiles => new == old && zip_request(old, req),
        Message::UnzipFile => new == old && unzip_request(old, req),
        Message::DirUp => new == old && match parent_spec(old.current_dir@) {
            Some(p) => lists(req, p, file_name_spec(old.current_dir@)),
            None => req is Nothing,
        },
        Message::DirEnter => {
            let vis = old.visible();
            &&& new == old
            &&& if old.selection < vis.len() && old.entries@[vis[old.selection as int] as int].is_dir {
                lists(
                    req,
                    join_spec(old.current_dir@, old.entries@[vis[old.selection as int] as int].name@),
                    None,
                )
            } else {
                req is Nothing
            }
        },
        _ => new == old && req is Nothing,
    }
}

/// The listing that walks up to `parent`, with the cursor put back on `name`,
/// the entry walked up from; nothing when there is no parent to go to.
pub fn parent_listing(parent: Option<String>, name: Option<String>) -> (req: PanelRequest)
    ensures
        match parent {
            Some(p) => lists(req, p@, opt_view(name)),
            None => req is Nothing,
        },
{
    match parent {
        Some(path) => PanelRequest::List { path, reselect: name },
        None => PanelRequest::Nothing,
    }
}

/// Where the "go to" field's text leads from `current_dir`, given the home
/// directory when it is known.
pub fn resolve_goto(text: &str, current_dir: &str, home: Option<&str>) -> (target: String)
    ensures
        target@ == goto_target(text@, current_dir@, match home {
            Some(h) => Some(h@),
            None => None,
        }),
{
    let chars = chars_of(text);
    let tilde_slash: Vec<char> = vec!['~', '/'];
    let tilde: Vec<char> = vec!['~'];
    assert(tilde_slash@ =~= seq!['~', '/']);
    assert(tilde@ =~= seq!['~']);
    if starts_with_chars(&chars, &tilde_slash) {
        if let Some(h) = home {
            let rest = text.substring_char(2, chars.len());
            return join(h, rest);
        }
    } else if chars_eq(&chars, &tilde) {
        if let Some(h) = home {
            return String::from_str(h);
        }
    }
    if is_absolute(text) {
        String::from_str(text)
    } else {
        join(current_dir, text)
    }
}

impl Model {
    /// A panel on `current_dir` showing `listing`, sorted by name, with the
    /// cursor at the top, nothing marked and every field and prompt closed.
    pub fn init(current_dir: String, listing: Vec<Entry>) -> (m: Self)
        ensures
            m.current_dir == current_dir,
            sorted_from(m.entries@, listing@, SortOrder::Name),
            m.sort_order == SortOrder::Name,
            m.selection == 0,
            m.selected@.is_empty(),
            closed_field(m.search),
            closed_field(m.new_path_input),
            closed_field(m.goto_input),
            !m.delete_confirm,
            m.delete_targets@.len() == 0,
            !m.dirs_only,
            m.wf(),
    {
        let sort_order = SortOrder::Name;
        Model {
            current_dir,
            entries: sort_entries(listing, sort_order),
            selection: 0,
            selected: BTreeSet::new(),
            search: input_box::Model::new(),
            new_path_input: input_box::Model::new(),
            goto_input: input_box::Model::new(),
            delete_confirm: false,
            delete_targets: Vec::new(),
            sort_order,
            dirs_only: false,
        }
    }

    /// Show the listing `listing` of `path`: sorted in the panel's order, with
    /// the cursor at the top, nothing marked, and every field and prompt closed.
    pub fn navigate_to(&mut self, path: String, listing: Vec<Entry>)
        ensures
            final(self).current_dir == path,
            sorted_from(final(self).entries@, listing@, old(self).sort_order),
            final(self).selection == 0,
            final(self).selected@.is_empty(),
            closed_field(final(self).search),
            closed_field(final(self).new_path_input),
            closed_field(final(self).goto_input),
            !final(self).delete_confirm,
            final(self).delete_targets@.len() == 0,
            final(self).sort_order == old(self).sort_order,
            final(self).dirs_only == old(self).dirs_only,
            final(self).wf(),
    {
        self.entries = sort_entries(listing, self.sort_order);
        self.current_dir = path;
        self.selection = 0;
        self.selected = BTreeSet::new();
        self.search.close();
        self.new_path_input.close();
        self.goto_input.close();
        self.delete_confirm = false;
        self.delete_targets = Vec::new();
    }

    /// Re-read the same directory: show the fresh listing `listing`, keeping
    /// the filter, the fields and the cursor position (moved up onto the last
    /// shown entry when the listing got shorter). Marks are dropped, since
    /// they name positions in the old listing.
    pub fn reload_keeping_selection(&mut self, listing: Vec<Entry>)
        ensures
            sorted_from(final(self).entries@, listing@, old(self).sort_order),
            final(self).selected@.is_empty(),
            final(self).selection == (if final(self).visible().len() == 0 {
                0
            } else if old(self).selection < final(self).visible().len() {
                old(self).selection as int
            } else {
                final(self).visible().len() - 1
            }),
            *final(self) == (Model {
                entries: final(self).entries,
                selected: final(self).selected,
                selection: final(self).selection,
                ..*old(self)
            }),
    {
        self.entries = sort_entries(listing, self.sort_order);
        self.selected = BTreeSet::new();
        let count = self.entry_count();
        if count == 0 {
            self.selection = 0;
        } else if self.selection >= count {
            self.selection = count - 1;
        }
    }

    /// Put the cursor on the first shown entry named `name`, if there is one.
    pub fn select_visible_named(&mut self, name: &str)
        ensures
            ({
                let vis = old(self).visible();
                let hit = first_visible_named(old(self).entries@, vis, name@, 0);
                final(self).selection == (if hit >= 0 { hit as usize } else { old(self).selection })
            }),
            *final(self) == (Model { selection: final(self).selection, ..*old(self) }),
    {
        let vis = self.visible_entries();
        // Reading the length tells the proof that the listing fits in a `usize`.
        let _count = self.entries.len();
        proof {
            lemma_visible_upto(self.entries@, self.filter_key(), self.dirs_only, self.entries@.len() as int);
        }
        let wanted = chars_of(name);
        let mut k: usize = 0;
        while k < vis.len()
            invariant
                wanted@ == name@,
                vis@ == self.visible(),
                forall|j: int| 0 <= j < vis@.len() ==> #[trigger] vis@[j] < self.entries@.len(),
                k <= vis@.len(),
                first_visible_named(self.entries@, vis@, name@, 0) == first_visible_named(
                    self.entries@,
                    vis@,
                    name@,
                    k as int,
                ),
                *self == *old(self),
            decreases vis@.len() - k,
        {
            if chars_eq(&chars_of(self.entries[vis[k]].name.as_str()), &wanted) {
                self.selection = k;
                return;
            }
            k = k + 1;
        }
    }

    /// Put the cursor on the first entry named `name`, if there is one.
    pub fn reselect(&mut self, name: &str)
        ensures
            final(self).selection == (if first_named(old(self).entries@, name@, 0) >= 0 {
                first_named(old(self).entries@, name@, 0) as usize
            } else {
                old(self).selection
            }),
            *final(self) == (Model { selection: final(self).selection, ..*old(self) }),
    {
        let wanted = chars_of(name);
        let mut i: usize = 0;
        while i < self.entries.len()
            invariant
                wanted@ == name@,
                i <= self.entries@.len(),
                first_named(self.entries@, name@, 0) == first_named(self.entries@, name@, i as int),
                *self == *old(self),
            decreases self.entries@.len() - i,
        {
            if chars_eq(&chars_of(self.entries[i].name.as_str()), &wanted) {
                self.selection = i;
                return;
            }
            i = i + 1;
        }
    }
}

/// Apply a filter message to the filter bar; says whether it changed what the
/// filter matches.
fn update_filter(search: &mut input_box::Model, msg: Message) -> (reset: bool)
    requires
        old(search).wf(),
        msg is EnterFilter || msg is FilterChar || msg is FilterBackspace || msg is ConfirmFilter
            || msg is ExitFilter,
    ensures
        final(search).wf(),
        filter_edited(*old(search), *final(search), msg),
        reset == filter_resets(msg),
{
    match msg {
        Message::EnterFilter => {
            search.active = true;
            search.cursor_end();
            false
        },
        Message::FilterChar(c) => {
            search.insert(c);
            true
        },
        Message::FilterBackspace => {
            search.backspace();
            true
        },
        Message::ConfirmFilter => {
            search.active = false;
            false
        },
        _ => {
            search.close();
            true
        },
    }
}

/// The position of the first `x` in `v`.
fn position(v: &Vec<usize>, x: usize) -> (p: Option<usize>)
    ensures
        match p {
            Some(k) => first_pos(v@, x, 0) == k,
            None => first_pos(v@, x, 0) == -1,
        },
{
    let mut i: usize = 0;
    while i < v.len()
        invariant
            i <= v@.len(),
            first_pos(v@, x, 0) == first_pos(v@, x, i as int),
        decreases v@.len() - i,
    {
        if v[i] == x {
            return Some(i);
        }
        i = i + 1;
    }
    None
}

/// Whether the first `end` characters of `s` end with `suffix`.
fn prefix_ends_with(s: &Vec<char>, end: usize, suffix: &Vec<char>) -> (b: bool)
    requires
        end <= s@.len(),
    ensures
        b == ends_with(s@.take(end as int), suffix@),
{
    if suffix.len() > end {
        return false;
    }
    let off = end - suffix.len();
    let mut k: usize = 0;
    while k < suffix.len()
        invariant
            end <= s@.len(),
            off + suffix@.len() == end,
            k <= suffix@.len(),
            forall|j: int| 0 <= j < k ==> s@[off + j] == suffix@[j],
        decreases suffix@.len() - k,
    {
        if s[off + k] != suffix[k] {
            assert(s@.take(end as int).skip(off as int)[k as int] != suffix@[k as int]);
            return false;
        }
        k = k + 1;
    }
    assert(s@.take(end as int).skip(off as int) =~= suffix@);
    true
}

/// `s` with every ASCII letter lower-cased.
fn ascii_lowered(s: &Vec<char>) -> (r: Vec<char>)
    ensures
        r@ == ascii_lower_seq(s@),
{
    let mut r: Vec<char> = Vec::new();
    for i in 0..s.len()
        invariant
            r@ == ascii_lower_seq(s@.take(i as int)),
    {
        r.push(to_ascii_lower(s[i]));
        assert(s@.take(i + 1) =~= s@.take(i as int).push(s@[i as int]));
        assert(ascii_lower_seq(s@.take(i + 1)) =~= ascii_lower_seq(s@.take(i as int)).push(
            ascii_lower(s@[i as int]),
        ));
    }
    assert(s@.take(s@.len() as int) =~= s@);
    r
}

fn update_new_path(mut model: Model, msg: Message) -> (res: (Model, PanelRequest))
    requires
        model.wf(),
        msg is NewPath || msg is NewPathChar || msg is NewPathBackspace || msg is NewPathCancel
            || msg is NewPathConfirm,
    ensures
        res.0.wf(),
        stepped(model, msg, res.0, res.1),
{
    match msg {
        Message::NewPath => {
            model.new_path_input.open();
            (model, PanelRequest::Nothing)
        },
        Message::NewPathChar(c) => {
            model.new_path_input.insert(c);
            (model, PanelRequest::Nothing)
        },
        Message::NewPathBackspace => {
            model.new_path_input.backspace();
            (model, PanelRequest::Nothing)
        },
        Message::NewPathCancel => {
            model.new_path_input.close();
            (model, PanelRequest::Nothing)
        },
        _ => {
            let text = model.new_path_input.text.clone();
            model.new_path_input.close();
            let chars = chars_of(text.as_str());
            if chars.len() == 0 {
                return (model, PanelRequest::Nothing);
            }
            let target = join(model.current_dir.as_str(), text.as_str());
            let slash: Vec<char> = vec!['/'];
            assert(slash@ =~= seq!['/']);
            let is_dir = ends_with_chars(&chars, &slash);
            (model, PanelRequest::Create { target, is_dir })
        },
    }
}

fn update_goto(mut model: Model, msg: Message) -> (res: (Model, PanelRequest))
    requires
        model.wf(),
        msg is GotoPath || msg is GotoPathChar || msg is GotoPathBackspace || msg is GotoPathCancel
            || msg is GotoPathConfirm,
    ensures
        res.0.wf(),
        stepped(model, msg, res.0, res.1),
{
    match msg {
        Message::GotoPath => {
            model.goto_input.open();
            (model, PanelRequest::Nothing)
        },
        Message::GotoPathChar(c) => {
            model.goto_input.insert(c);
            (model, PanelRequest::Nothing)
        },
        Message::GotoPathBackspace => {
            model.goto_input.backspace();
            (model, PanelRequest::Nothing)
        },
        Message::GotoPathCancel => {
            model.goto_input.close();
            (model, PanelRequest::Nothing)
        },
        _ => {
            let text = model.goto_input.text.clone();
            model.goto_input.close();
            if text.as_str().is_empty() {
                return (model, PanelRequest::Nothing);
            }
            (model, PanelRequest::Goto { text })
        },
    }
}

fn update_delete(mut model: Model, msg: Message) -> (res: (Model, PanelRequest))
    requires
        model.wf(),
        msg is DeleteFiles || msg is DeleteCancel || msg is DeleteConfirm,
    ensures
        res.0.wf(),
        stepped(model, msg, res.0, res.1),
{
    match msg {
        Message::DeleteFiles => {
            let targets = model.action_targets();
            if targets.len() > 0 {
                model.delete_targets = targets;
                model.delete_confirm = true;
            }
            (model, PanelRequest::Nothing)
        },
        Message::DeleteCancel => {
            model.delete_confirm = false;
            model.delete_targets = Vec::new();
            (model, PanelRequest::Nothing)
        },
        _ => {
            model.delete_confirm = false;
            let mut targets: Vec<DeleteTarget> = Vec::new();
            std::mem::swap(&mut targets, &mut model.delete_targets);
            model.selected = BTreeSet::new();
            (model, PanelRequest::Remove { targets })
        },
    }
}

fn update_archive(model: Model, msg: Message) -> (res: (Model, PanelRequest))
    requires
        model.wf(),
        msg is ZipFiles || msg is UnzipFile,
    ensures
        res.0.wf(),
        stepped(model, msg, res.0, res.1),
{
    match msg {
        Message::ZipFiles => {
            let targets = model.action_targets();
            if targets.len() == 0 {
                return (model, PanelRequest::Nothing);
            }
            let first = &targets[0];
            let archive_file = zip_archive_name(
                targets.len(),
                first.name.as_str(),
                first.is_dir,
                file_stem(first.name.as_str()),
            );
            proof {
                assert(target_for(targets@[0], model.current_dir@, model.chosen()[0]));
            }
            let dest = join(model.current_dir.as_str(), archive_file.as_str());
            let mut sources: Vec<String> = Vec::new();
            for i in 0..targets.len()
                invariant
                    targets_for(targets@, model.current_dir@, model.chosen()),
                    sources@.len() == i,
                    forall|j: int| 0 <= j < i ==> (#[trigger] sources@[j])@ == join_spec(
                        model.current_dir@,
                        model.chosen()[j].name@,
                    ),
            {
                sources.push(targets[i].path.clone());
                assert(target_for(targets@[i as int], model.current_dir@, model.chosen()[i as int]));
            }
            (model, PanelRequest::Zip { sources, dest })
        },
        _ => {
            let vis = model.visible_entries();
            // Reading the length tells the proof that the listing fits in a `usize`.
            let _count = model.entries.len();
            proof {
                lemma_visible_upto(model.entries@, model.filter_key(), model.dirs_only, model.entries@.len() as int);
            }
            if model.selection >= vis.len() {
                return (model, PanelRequest::Nothing);
            }
            let name = model.entries[vis[model.selection]].name.clone();
            let req = unzip_plan(model.current_dir.as_str(), name.as_str(), extension(name.as_str()));
            (model, req)
        },
    }
}

/// The name of the archive a zip of `count` entries is written to, the first
/// of them named `name`, given that name's stem `stem`.
pub fn zip_archive_name(count: usize, name: &str, is_dir: bool, stem: Option<String>) -> (a: String)
    ensures
        a@ == archive_file(count as nat, name@, is_dir, opt_view(stem)),
{
    if count != 1 {
        proof {
            reveal_strlit("archive.zip");
        }
        return String::from_str("archive.zip");
    }
    let mut a = if is_dir {
        String::from_str(name)
    } else {
        match stem {
            Some(s) => s,
            None => String::from_str(name),
        }
    };
    let ghost base = a@;
    push_char(&mut a, '.');
    push_char(&mut a, 'z');
    push_char(&mut a, 'i');
    push_char(&mut a, 'p');
    assert(a@ =~= base + zip_suffix());
    a
}

/// What unpacking entry `name` of directory `dir` asks for, given the name's
/// extension `ext`.
pub fn unzip_plan(dir: &str, name: &str, ext: Option<String>) -> (req: PanelRequest)
    ensures
        unzip_plan_spec(dir@, name@, opt_view(ext), req),
{
    let chars = chars_of(name);
    let archive = join(dir, name);
    let ext = match ext {
        Some(e) => chars_of(e.as_str()),
        None => Vec::new(),
    };
    let zip_word: Vec<char> = vec!['z', 'i', 'p'];
    assert(zip_word@ =~= seq!['z', 'i', 'p']);
    if chars_eq(&ascii_lowered(&ext), &zip_word) {
        let suffix: Vec<char> = vec!['.', 'z', 'i', 'p'];
        assert(suffix@ =~= zip_suffix());
        let mut end = chars.len();
        assert(chars@.take(end as int) =~= chars@);
        while prefix_ends_with(&chars, end, &suffix)
            invariant
                end <= chars@.len(),
                suffix@ == zip_suffix(),
                trim_suffix_all(chars@, zip_suffix()) == trim_suffix_all(chars@.take(end as int), zip_suffix()),
            decreases end,
        {
            assert(chars@.take(end as int).take(end - 4) =~= chars@.take(end - 4));
            end = end - 4;
        }
        let dest = join(dir, name.substring_char(0, end));
        PanelRequest::Unzip { archive, dest, format: ArchiveFormat::Zip }
    } else {
        let suffix: Vec<char> = vec!['.', 't', 'a', 'r', '.', 'g', 'z'];
        assert(suffix@ =~= tar_gz_suffix());
        if ends_with_chars(&ascii_lowered(&chars), &suffix) {
            let dest = join(dir, name.substring_char(0, chars.len() - 7));
            PanelRequest::Unzip { archive, dest, format: ArchiveFormat::TarGz }
        } else {
            PanelRequest::Nothing
        }
    }
}

/// Apply one message to a file panel, returning the panel and the
/// file-system work the message needs done.
pub fn update(mut model: Model, msg: Message) -> (res: (Model, PanelRequest))
    requires
        model.wf(),
    ensures
        res.0.wf(),
        stepped(model, msg, res.0, res.1),
{
    match msg {
        Message::EnterFilter | Message::FilterChar(_) | Message::FilterBackspace
        | Message::ConfirmFilter | Message::ExitFilter => {
            let vis = model.visible_entries();
            let raw = if model.selection < vis.len() {
                Some(vis[model.selection])
            } else {
                None
            };
            let reset = update_filter(&mut model.search, msg);
            if reset {
                let now = model.visible_entries();
                model.selection = match raw {
                    Some(ri) => match position(&now, ri) {
                        Some(p) => p,
                        None => 0,
                    },
                    None => 0,
                };
            }
            (model, PanelRequest::Nothing)
        },
        Message::NewPath | Message::NewPathChar(_) | Message::NewPathBackspace
        | Message::NewPathCancel | Message::NewPathConfirm => update_new_path(model, msg),
        Message::GotoPath | Message::GotoPathChar(_) | Message::GotoPathBackspace
        | Message::GotoPathCancel | Message::GotoPathConfirm => update_goto(model, msg),
        Message::DeleteFiles | Message::DeleteCancel | Message::DeleteConfirm => update_delete(
            model,
            msg,
        ),
        Message::SelectUp => {
            model.selection = model.selection.saturating_sub(1);
            (model, PanelRequest::Nothing)
        },
        Message::SelectDown => {
            let count = model.entry_count();
            if count > 0 {
                model.selection = if model.selection < count - 1 {
                    model.selection + 1
                } else {
                    count - 1
                };
            }
            (model, PanelRequest::Nothing)
        },
        Message::MarkSelectUp => {
            model.toggle_under_cursor();
            model.selection = model.selection.saturating_sub(1);
            (model, PanelRequest::Nothing)
        },
        Message::MarkSelectDown => {
            model.toggle_under_cursor();
            let count = model.entry_count();
            if count > 0 {
                model.selection = if model.selection < count - 1 {
                    model.selection + 1
                } else {
                    count - 1
                };
            }
            (model, PanelRequest::Nothing)
        },
        Message::ClearSelection => {
            model.selected = BTreeSet::new();
            (model, PanelRequest::Nothing)
        },
        Message::CycleSort => {
            model.sort_order = model.sort_order.next();
            let mut listing: Vec<Entry> = Vec::new();
            std::mem::swap(&mut listing, &mut model.entries);
            model.entries = sort_entries(listing, model.sort_order);
            model.selection = 0;
            model.selected = BTreeSet::new();
            (model, PanelRequest::Nothing)
        },
        Message::ZipFiles | Message::UnzipFile => update_archive(model, msg),
        Message::DirUp => {
            let req = parent_listing(parent(model.current_dir.as_str()), file_name(model.current_dir.as_str()));
            (model, req)
        },
        Message::DirEnter => {
            let vis = model.visible_entries();
            // Reading the length tells the proof that the listing fits in a `usize`.
            let _count = model.entries.len();
            proof {
                lemma_visible_upto(model.entries@, model.filter_key(), model.dirs_only, model.entries@.len() as int);
            }
            if model.selection < vis.len() && model.entries[vis[model.selection]].is_dir {
                let path = join(model.current_dir.as_str(), model.entries[vis[model.selection]].name.as_str());
                (model, PanelRequest::List { path, reselect: None })
            } else {
                (model, PanelRequest::Nothing)
            }
        },
        _ => (model, PanelRequest::Nothing),
    }
}

/// A finished job handled by the panel: `old` becomes `new`, and `req` is
/// the listing to read next, if any.
pub open spec fn completed(old: Model, outcome: Outcome, new: Model, req: PanelRequest) -> bool {
    match outcome {
        Outcome::Created(ok) => new == old && if ok {
            lists(req, old.current_dir@, None)
        } else {
            req is Nothing
        },
        Outcome::GotoChecked { target, is_dir } => new == old && if is_dir {
            lists(req, target@, None)
        } else {
            req is Nothing
        },
        Outcome::Removed => new == old && lists(req, old.current_dir@, None),
        Outcome::Zipped(ok) => if ok {
            new.selected@.is_empty() && new == (Model { selected: new.selected, ..old })
                && lists(req, old.current_dir@, None)
        } else {
            new == old && req is Nothing
        },
        Outcome::Unzipped(ok) => new == old && if ok {
            lists(req, old.current_dir@, None)
        } else {
            req is Nothing
        },
    }
}

/// What follows a finished job: a listing of the directory the panel should
/// now show, when there is one to read. A failed job leaves everything as it
/// was; a zip that worked also clears the marks.
pub fn complete(mut model: Model, outcome: Outcome) -> (res: (Model, PanelRequest))
    ensures
        completed(model, outcome, res.0, res.1),
{
    match outcome {
        Outcome::Created(ok) | Outcome::Unzipped(ok) => {
            if ok {
                let path = model.current_dir.clone();
                (model, PanelRequest::List { path, reselect: None })
            } else {
                (model, PanelRequest::Nothing)
            }
        },
        Outcome::GotoChecked { target, is_dir } => {
            if is_dir {
                (model, PanelRequest::List { path: target, reselect: None })
            } else {
                (model, PanelRequest::Nothing)
            }
        },
        Outcome::Removed => {
            let path = model.current_dir.clone();
            (model, PanelRequest::List { path, reselect: None })
        },
        Outcome::Zipped(ok) => {
            if ok {
                model.selected = BTreeSet::new();
                let path = model.current_dir.clone();
                (model, PanelRequest::List { path, reselect: None })
            } else {
                (model, PanelRequest::Nothing)
            }
        },
    }
}

/// `first_pos` finds the first occurrence of a value the sequence holds.
pub proof fn lemma_first_pos(s: Seq<usize>, x: usize, from: int)
    requires
        0 <= from,
    ensures
        first_pos(s, x, from) == -1 || (from <= first_pos(s, x, from) < s.len() && s[first_pos(s, x, from)] == x),
        (exists|k: int| from <= k < s.len() && s[k] == x) ==> first_pos(s, x, from) >= from,
    decreases s.len() - from,
{
    if from < s.len() && s[from] != x {
        lemma_first_pos(s, x, from + 1);
        if exists|k: int| from <= k < s.len() && s[k] == x {
            let k = choose|k: int| from <= k < s.len() && s[k] == x;
            assert(k != from);
            assert(from + 1 <= k < s.len() && s[k] == x);
        }
    }
}

/// Editing the filter keeps the cursor on the entry it was on whenever that
/// entry is still shown; otherwise the cursor goes to the top.
pub proof fn lemma_filter_keeps_highlight(old: Model, msg: Message, new: Model, req: PanelRequest)
    requires
        stepped(old, msg, new, req),
        filter_resets(msg),
        old.selection < old.visible().len(),
    ensures
        new.visible().contains(old.visible()[old.selection as int]) ==> new.selection < new.visible().len()
            && new.visible()[new.selection as int] == old.visible()[old.selection as int],
        !new.visible().contains(old.visible()[old.selection as int]) ==> new.selection == 0,
{
    let r = old.visible()[old.selection as int];
    lemma_first_pos(new.visible(), r, 0);
}

/// With nothing typed in the filter, every entry is shown in listing order
/// (directories only, while the panel is picking a destination).
pub proof fn lemma_empty_filter_shows_all(entries: Seq<Entry>, dirs_only: bool, upto: int)
    requires
        0 <= upto <= entries.len(),
        !dirs_only || forall|i: int| 0 <= i < upto ==> #[trigger] entries[i].is_dir,
    ensures
        visible_upto(entries, Seq::empty(), dirs_only, upto) == Seq::new(upto as nat, |i: int| i as usize),
    decreases upto,
{
    if upto > 0 {
        lemma_empty_filter_shows_all(entries, dirs_only, upto - 1);
        assert(visible_upto(entries, Seq::empty(), dirs_only, upto) =~= Seq::new(upto as nat, |i: int| i as usize));
    }
}

/// Escape in the filter bar brings back the whole listing.
pub proof fn lemma_exit_filter_shows_all(old: Model, new: Model, req: PanelRequest)
    requires
        stepped(old, Message::ExitFilter, new, req),
        !old.dirs_only,
    ensures
        new.visible() == Seq::new(new.entries@.len(), |i: int| i as usize),
        new.entries == old.entries,
{
    lemma_empty_filter_shows_all(new.entries@, new.dirs_only, new.entries@.len() as int);
}

/// Moving the cursor up or down keeps it on a shown entry.
pub proof fn lemma_moves_stay_in_listing(old: Model, msg: Message, new: Model, req: PanelRequest)
    requires
        stepped(old, msg, new, req),
        msg is SelectUp || msg is SelectDown || msg is MarkSelectUp || msg is MarkSelectDown,
        old.selection < old.visible().len(),
    ensures
        new.selection < new.visible().len(),
{
    assert(new.entries == old.entries && new.search == old.search && new.dirs_only == old.dirs_only);
}

/// Marking the same entry twice leaves the marks as they were.
pub proof fn lemma_toggle_twice(marks: Set<usize>, index: usize)
    ensures
        ({
            let once = if marks.contains(index) { marks.remove(index) } else { marks.insert(index) };
            let twice = if once.contains(index) { once.remove(index) } else { once.insert(index) };
            twice == marks
        }),
{
    let once = if marks.contains(index) { marks.remove(index) } else { marks.insert(index) };
    let twice = if once.contains(index) { once.remove(index) } else { once.insert(index) };
    assert(twice =~= marks);
}

/// Confirming the delete prompt right after it was raised removes exactly the
/// entries that were chosen when it was raised, and clears the prompt and the
/// marks.
pub proof fn lemma_delete_removes_chosen(
    m0: Model,
    m1: Model,
    r1: PanelRequest,
    m2: Model,
    r2: PanelRequest,
)
    requires
        stepped(m0, Message::DeleteFiles, m1, r1),
        m0.chosen().len() > 0,
        stepped(m1, Message::DeleteConfirm, m2, r2),
    ensures
        r2 matches PanelRequest::Remove { targets } && targets_for(targets@, m0.current_dir@, m0.chosen()),
        !m2.delete_confirm,
        m2.selected@.is_empty(),
{
}

/// Asking to delete and then cancelling leaves the panel exactly as it was.
pub proof fn lemma_delete_cancel_restores(m0: Model, m1: Model, r1: PanelRequest, m2: Model, r2: PanelRequest)
    requires
        stepped(m0, Message::DeleteFiles, m1, r1),
        stepped(m1, Message::DeleteCancel, m2, r2),
        !m0.delete_confirm,
        m0.delete_targets@.len() == 0,
    ensures
        m2 == (Model { delete_targets: m2.delete_targets, ..m0 }),
        m2.delete_targets@ == m0.delete_targets@,
{
}

} // verus!
