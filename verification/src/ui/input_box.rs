use vstd::prelude::*;
use vstd::utf8::encode_utf8;

use crate::text::{char_len, push_char};

verus! {

/// One editing keystroke applied to a text field.
#[derive(Clone, Copy, PartialEq, Eq, Debug, Structural)]
pub enum EditOp {
    Char(char),
    Backspace,
    CursorLeft,
    CursorRight,
}

/// A single-line text field with a cursor.
///
/// The cursor sits between characters: position `k` is just before the
/// `k`-th character, and the text's length is the position after the last.
pub struct Model {
    pub text: String,
    pub active: bool,
    /// Number of characters before the cursor.
    pub pos: usize,
}

/// The text after inserting `c` at character position `pos`.
pub open spec fn inserted(text: Seq<char>, pos: nat, c: char) -> Seq<char> {
    text.take(pos as int) + seq![c] + text.skip(pos as int)
}

/// The text after deleting the character just before position `pos`; the
/// text is unchanged when the cursor is at the start.
pub open spec fn backspaced(text: Seq<char>, pos: nat) -> Seq<char> {
    if pos == 0 {
        text
    } else {
        text.take(pos - 1) + text.skip(pos as int)
    }
}

/// The cursor position after a backspace at `pos`.
pub open spec fn backspaced_pos(pos: nat) -> nat {
    if pos == 0 { 0 } else { (pos - 1) as nat }
}

/// One position to the left, stopping at the start.
pub open spec fn left_of(pos: nat) -> nat {
    if pos == 0 { 0 } else { (pos - 1) as nat }
}

/// One position to the right, stopping after the last character.
pub open spec fn right_of(pos: nat, len: nat) -> nat {
    if pos >= len { pos } else { pos + 1 }
}

/// The byte offset of character position `pos` in the UTF-8 encoding of `text`.
pub open spec fn byte_offset(text: Seq<char>, pos: nat) -> nat {
    encode_utf8(text.take(pos as int)).len()
}

/// The three pieces a field is drawn from: the text before the cursor, the
/// character the cursor sits on (an underscore stands in at the end of the
/// text), and the text after that character.
pub open spec fn cursor_spans_spec(text: Seq<char>, pos: nat) -> (Seq<char>, Seq<char>, Seq<char>) {
    if pos < text.len() {
        (text.take(pos as int), seq![text[pos as int]], text.skip(pos + 1int))
    } else {
        (text.take(pos as int), seq!['_'], Seq::empty())
    }
}

impl Model {
    /// Character position of the cursor.
    pub open spec fn pos(&self) -> nat {
        self.pos as nat
    }

    /// The cursor lies within the text.
    pub open spec fn wf(&self) -> bool {
        self.pos() <= self.text@.len()
    }

    pub fn new() -> (m: Self)
        ensures
            m.text@ == Seq::<char>::empty(),
            !m.active,
            m.pos() == 0,
            m.wf(),
    {
        Self { text: String::new(), active: false, pos: 0 }
    }

    /// Empty the field and give it the keys.
    pub fn open(&mut self)
        ensures
            final(self).text@ == Seq::<char>::empty(),
            final(self).active,
            final(self).pos() == 0,
            final(self).wf(),
    {
        self.text = String::new();
        self.pos = 0;
        self.active = true;
    }

    /// Empty the field and take the keys away from it.
    pub fn close(&mut self)
        ensures
            final(self).text@ == Seq::<char>::empty(),
            !final(self).active,
            final(self).pos() == 0,
            final(self).wf(),
    {
        self.text = String::new();
        self.pos = 0;
        self.active = false;
    }

    /// Replace the text and position the cursor at the end.
    pub fn set_text(&mut self, text: String)
        ensures
            final(self).text@ == text@,
            final(self).pos() == text@.len(),
            final(self).active == old(self).active,
            final(self).wf(),
    {
        self.pos = text.as_str().unicode_len();
        self.text = text;
    }

    /// Insert `c` at the cursor and advance the cursor past it.
    pub fn insert(&mut self, c: char)
        requires
            old(self).wf(),
        ensures
            final(self).text@ == inserted(old(self).text@, old(self).pos(), c),
            final(self).pos() == old(self).pos() + 1,
            final(self).active == old(self).active,
            final(self).wf(),
    {
        let len = char_len(&self.text);
        let mut out = String::from_str(self.text.as_str().substring_char(0, self.pos));
        push_char(&mut out, c);
        out.append(self.text.as_str().substring_char(self.pos, len));
        assert(out@ =~= inserted(self.text@, self.pos(), c));
        self.text = out;
        self.pos = self.pos + 1;
    }

    /// Delete the character immediately before the cursor (backspace semantics).
    pub fn backspace(&mut self)
        requires
            old(self).wf(),
        ensures
            final(self).text@ == backspaced(old(self).text@, old(self).pos()),
            final(self).pos() == backspaced_pos(old(self).pos()),
            final(self).active == old(self).active,
            final(self).wf(),
    {
        if self.pos == 0 {
            return;
        }
        let len = self.text.as_str().unicode_len();
        let mut out = String::from_str(self.text.as_str().substring_char(0, self.pos - 1));
        out.append(self.text.as_str().substring_char(self.pos, len));
        assert(out@ =~= backspaced(self.text@, self.pos()));
        self.text = out;
        self.pos = self.pos - 1;
    }

    /// Move the cursor one character to the left.
    pub fn move_left(&mut self)
        requires
            old(self).wf(),
        ensures
            final(self).text@ == old(self).text@,
            final(self).pos() == left_of(old(self).pos()),
            final(self).active == old(self).active,
            final(self).wf(),
    {
        if self.pos > 0 {
            self.pos = self.pos - 1;
        }
    }

    /// Byte offset of the cursor in the text's UTF-8 encoding.
    pub fn cursor(&self) -> (offset: usize)
        requires
            self.wf(),
        ensures
            offset == byte_offset(self.text@, self.pos()),
    {
        self.text.as_str().substring_char(0, self.pos).as_bytes().len()
    }

    /// Put the cursor before the first character.
    pub fn cursor_home(&mut self)
        ensures
            final(self).text@ == old(self).text@,
            final(self).pos() == 0,
            final(self).active == old(self).active,
            final(self).wf(),
    {
        self.pos = 0;
    }

    /// Put the cursor after the last character.
    pub fn cursor_end(&mut self)
        ensures
            final(self).text@ == old(self).text@,
            final(self).pos() == old(self).text@.len(),
            final(self).active == old(self).active,
            final(self).wf(),
    {
        self.pos = self.text.as_str().unicode_len();
    }

    /// Move the cursor one character to the right.
    pub fn move_right(&mut self)
        requires
            old(self).wf(),
        ensures
            final(self).text@ == old(self).text@,
            final(self).pos() == right_of(old(self).pos(), old(self).text@.len()),
            final(self).active == old(self).active,
            final(self).wf(),
    {
        let len = self.text.as_str().unicode_len();
        if self.pos < len {
            self.pos = self.pos + 1;
        }
    }

    /// The texts of the field's three spans: everything before the cursor, the
    /// character the cursor sits _on_, and the rest. At end-of-text there is no
    /// character to sit on, so a "_" stands in. Every widget drawing this field
    /// styles these pieces, the middle one as the cursor.
    pub fn cursor_spans(&self) -> (parts: (String, String, String))
        requires
            self.wf(),
        ensures
            (parts.0@, parts.1@, parts.2@) == cursor_spans_spec(self.text@, self.pos()),
    {
        let len = self.text.as_str().unicode_len();
        let before = String::from_str(self.text.as_str().substring_char(0, self.pos));
        if self.pos < len {
            let on = String::from_str(self.text.as_str().substring_char(self.pos, self.pos + 1));
            let after = String::from_str(self.text.as_str().substring_char(self.pos + 1, len));
            assert(on@ =~= seq![self.text@[self.pos as int]]);
            (before, on, after)
        } else {
            proof {
                reveal_strlit("_");
            }
            let on = String::from_str("_");
            assert(on@ =~= seq!['_']);
            (before, on, String::new())
        }
    }
}

/// The text and cursor of `new` are those of `old` after the keystroke `op`.
pub open spec fn edited(old: Model, new: Model, op: EditOp) -> bool {
    match op {
        EditOp::Char(c) => new.text@ == inserted(old.text@, old.pos(), c) && new.pos() == old.pos() + 1,
        EditOp::Backspace => new.text@ == backspaced(old.text@, old.pos()) && new.pos() == backspaced_pos(
            old.pos(),
        ),
        EditOp::CursorLeft => new.text@ == old.text@ && new.pos() == left_of(old.pos()),
        EditOp::CursorRight => new.text@ == old.text@ && new.pos() == right_of(old.pos(), old.text@.len()),
    }
}

/// Apply one editing keystroke. Every text field routes through here, so an
/// edit needs no per-field handling of its own.
pub fn apply(field: &mut Model, op: EditOp)
    requires
        old(field).wf(),
    ensures
        final(field).wf(),
        final(field).active == old(field).active,
        edited(*old(field), *final(field), op),
{
    match op {
        EditOp::Char(c) => field.insert(c),
        EditOp::Backspace => field.backspace(),
        EditOp::CursorLeft => field.move_left(),
        EditOp::CursorRight => field.move_right(),
    }
}

/// The encoding of two texts one after the other is the two encodings one
/// after the other.
pub proof fn lemma_encode_utf8_concat(a: Seq<char>, b: Seq<char>)
    ensures
        encode_utf8(a + b) == encode_utf8(a) + encode_utf8(b),
    decreases a.len(),
{
    if a.len() == 0 {
        assert(a + b =~= b);
        assert(encode_utf8(a) =~= Seq::<u8>::empty());
        assert(encode_utf8(a) + encode_utf8(b) =~= encode_utf8(b));
    } else {
        assert((a + b).drop_first() =~= a.drop_first() + b);
        lemma_encode_utf8_concat(a.drop_first(), b);
        assert(encode_utf8(a + b) =~= encode_utf8(a) + encode_utf8(b));
    }
}

/// Backspace right after typing a character takes the field back to where it
/// was: the same text and the same cursor.
pub proof fn lemma_backspace_undoes_insert(text: Seq<char>, pos: nat, c: char)
    requires
        pos <= text.len(),
    ensures
        backspaced(inserted(text, pos, c), pos + 1) == text,
        backspaced_pos(pos + 1) == pos,
{
    assert(backspaced(inserted(text, pos, c), pos + 1) =~= text);
}

/// Typing a character moves the cursor's byte offset on by the length of that
/// character's UTF-8 encoding.
pub proof fn lemma_insert_advances_cursor_by_char_len(text: Seq<char>, pos: nat, c: char)
    requires
        pos <= text.len(),
    ensures
        byte_offset(inserted(text, pos, c), pos + 1) == byte_offset(text, pos) + encode_utf8(
            seq![c],
        ).len(),
{
    assert(inserted(text, pos, c).take(pos + 1int) =~= text.take(pos as int) + seq![c]);
    lemma_encode_utf8_concat(text.take(pos as int), seq![c]);
}

/// A step left undoes a step right, and a step right undoes a step left,
/// whenever the first step moved the cursor at all.
pub proof fn lemma_left_right_inverse(pos: nat, len: nat)
    requires
        pos <= len,
    ensures
        pos < len ==> left_of(right_of(pos, len)) == pos,
        0 < pos ==> right_of(left_of(pos), len) == pos,
{
}

} // verus!
