//! The popup for entering a key/value record, with its two text fields.

use vstd::prelude::*;

use crate::text::string_from_chars;
use crate::tui::actions::{Action, ActionQueue, ActionView, Key, PopUpContent};

verus! {

/// Number of bytes the UTF-8 encoding of a character takes.
pub open spec fn utf8_len(c: char) -> nat {
    if (c as u32) < 0x80 {
        1
    } else if (c as u32) < 0x800 {
        2
    } else if (c as u32) < 0x10000 {
        3
    } else {
        4
    }
}

/// Number of bytes the UTF-8 encoding of a text takes.
pub open spec fn byte_len(s: Seq<char>) -> nat
    decreases s.len(),
{
    if s.len() == 0 {
        0
    } else {
        byte_len(s.drop_last()) + utf8_len(s.last())
    }
}

/// Encoding lengths add up over concatenation.
pub proof fn lemma_byte_len_concat(a: Seq<char>, b: Seq<char>)
    ensures
        byte_len(a + b) == byte_len(a) + byte_len(b),
    decreases b.len(),
{
    if b.len() > 0 {
        lemma_byte_len_concat(a, b.drop_last());
        assert((a + b).drop_last() =~= a + b.drop_last());
        assert((a + b).last() == b.last());
    } else {
        assert(a + b =~= a);
    }
}

/// The encoding of a prefix is no longer than that of the whole.
proof fn lemma_byte_len_prefix(s: Seq<char>, i: int, j: int)
    requires
        0 <= i <= j <= s.len(),
    ensures
        byte_len(s.take(i)) <= byte_len(s.take(j)),
        i < j ==> byte_len(s.take(i)) < byte_len(s.take(j)),
    decreases j - i,
{
    if i < j {
        lemma_byte_len_prefix(s, i, j - 1);
        assert(s.take(j).drop_last() =~= s.take(j - 1));
    }
}

/// Number of bytes the UTF-8 encoding of `c` takes.
pub fn char_utf8_len(c: char) -> (n: usize)
    ensures
        n == utf8_len(c),
{
    let u = c as u32;
    if u < 0x80 {
        1
    } else if u < 0x800 {
        2
    } else if u < 0x10000 {
        3
    } else {
        4
    }
}

/// A single text-input field with its own cursor.
pub struct Field {
    buf: Vec<char>,
    /// Byte index of the cursor into the UTF-8 encoding of the text.
    cursor: usize,
    /// Character index of the cursor.
    col: Ghost<nat>,
}

/// The text of a field and the character position of its cursor.
pub struct FieldView {
    pub text: Seq<char>,
    pub col: nat,
}

impl FieldView {
    /// The cursor is at most one past the last character.
    pub open spec fn in_range(self) -> bool {
        self.col <= self.text.len()
    }

    /// The field after `c` is typed at the cursor.
    pub open spec fn after_insert(self, c: char) -> FieldView {
        FieldView { text: self.text.insert(self.col as int, c), col: self.col + 1 }
    }

    /// The field after the character before the cursor is erased, if any.
    pub open spec fn after_delete(self) -> FieldView {
        if self.col == 0 {
            self
        } else {
            FieldView { text: self.text.remove(self.col - 1), col: (self.col - 1) as nat }
        }
    }

    /// The field after the cursor moved one character left, if it can.
    pub open spec fn after_left(self) -> FieldView {
        FieldView { text: self.text, col: if self.col == 0 { 0 } else { (self.col - 1) as nat } }
    }

    /// The field after the cursor moved one character right, if it can.
    pub open spec fn after_right(self) -> FieldView {
        FieldView { text: self.text, col: if self.col == self.text.len() { self.col } else { self.col + 1 } }
    }
}

impl View for Field {
    type V = FieldView;

    closed spec fn view(&self) -> FieldView {
        FieldView { text: self.buf@, col: self.col@ }
    }
}

impl Field {
    #[verifier::type_invariant]
    spec fn cursor_on_boundary(self) -> bool {
        &&& self.col@ <= self.buf@.len()
        &&& self.cursor == byte_len(self.buf@.take(self.col@ as int))
        &&& byte_len(self.buf@) <= usize::MAX
    }

    /// Byte index of the cursor into the encoding of the text.
    pub open spec fn byte_cursor(&self) -> nat {
        byte_len(self@.text.take(self@.col as int))
    }

    /// An empty field.
    pub fn new() -> (f: Self)
        ensures
            f@.text == Seq::<char>::empty(),
            f@.col == 0,
            f@.in_range(),
    {
        let f = Field { buf: Vec::new(), cursor: 0, col: Ghost(0) };
        assert(f.buf@.take(0) =~= Seq::<char>::empty());
        f
    }

    /// Character index of the byte cursor.
    fn locate(&self) -> (i: usize)
        ensures
            i == self@.col,
            self@.col <= self@.text.len(),
            self.cursor == byte_len(self@.text.take(i as int)),
            byte_len(self@.text) <= usize::MAX,
    {
        proof {
            use_type_invariant(self);
        }
        let mut i: usize = 0;
        let mut bytes: usize = 0;
        assert(self.buf@.take(0) =~= Seq::<char>::empty());
        assert(self.buf@.len() == self.buf.len());
        while bytes < self.cursor
            invariant
                self.buf@.len() <= usize::MAX,
                i <= self.col@,
                self.col@ <= self.buf@.len(),
                bytes == byte_len(self.buf@.take(i as int)),
                self.cursor == byte_len(self.buf@.take(self.col@ as int)),
                byte_len(self.buf@) <= usize::MAX,
            decreases self.col@ - i,
        {
            proof {
                lemma_byte_len_prefix(self.buf@, i as int, self.col@ as int);
                if i == self.col@ {
                    assert(false);
                }
                assert(self.buf@.take(i + 1).drop_last() =~= self.buf@.take(i as int));
                lemma_byte_len_prefix(self.buf@, i + 1, self.buf@.len() as int);
                assert(self.buf@.take(self.buf@.len() as int) =~= self.buf@);
            }
            bytes = bytes + char_utf8_len(self.buf[i]);
            i = i + 1;
        }
        proof {
            if i < self.col@ {
                lemma_byte_len_prefix(self.buf@, i as int, self.col@ as int);
            }
        }
        i
    }

    /// Whether `c` can be typed in: the encoding must still fit in memory.
    pub fn fits(&self, c: char) -> (b: bool)
        ensures
            b == (byte_len(self@.text) + utf8_len(c) <= usize::MAX),
    {
        proof {
            use_type_invariant(self);
        }
        let mut i: usize = 0;
        let mut bytes: usize = 0;
        assert(self.buf@.take(0) =~= Seq::<char>::empty());
        while i < self.buf.len()
            invariant
                i <= self.buf@.len(),
                bytes == byte_len(self.buf@.take(i as int)),
                byte_len(self.buf@) <= usize::MAX,
            decreases self.buf@.len() - i,
        {
            proof {
                assert(self.buf@.take(i + 1).drop_last() =~= self.buf@.take(i as int));
                lemma_byte_len_prefix(self.buf@, i + 1, self.buf@.len() as int);
                assert(self.buf@.take(self.buf@.len() as int) =~= self.buf@);
            }
            bytes = bytes + char_utf8_len(self.buf[i]);
            i = i + 1;
        }
        proof {
            assert(self.buf@.take(self.buf@.len() as int) =~= self.buf@);
        }
        bytes <= usize::MAX - char_utf8_len(c)
    }

    /// The text of the field.
    pub fn text(&self) -> (s: String)
        ensures
            s@ == self@.text,
            self@.in_range(),
    {
        proof {
            use_type_invariant(self);
        }
        string_from_chars(&self.buf)
    }

    /// Inserts `c` at the cursor and moves the cursor past it.
    pub fn insert_char(&mut self, c: char)
        requires
            byte_len(old(self)@.text) + utf8_len(c) <= usize::MAX,
        ensures
            old(self)@.in_range(),
            final(self)@ == old(self)@.after_insert(c),
            final(self)@.in_range(),
    {
        let col = self.locate();
        let w = char_utf8_len(c);
        let ghost old_text = self.buf@;
        let cursor = self.cursor;
        let mut old_field = Field::new();
        std::mem::swap(&mut old_field, self);
        let Field { buf: mut buf, .. } = old_field;
        buf.insert(col, c);
        proof {
            let t = old_text;
            assert(buf@.take(col + 1) =~= t.take(col as int).push(c));
            assert(buf@.take(col + 1).drop_last() =~= t.take(col as int));
            assert(buf@ =~= t.take(col as int).push(c) + t.skip(col as int));
            assert(t =~= t.take(col as int) + t.skip(col as int));
            lemma_byte_len_concat(t.take(col as int).push(c), t.skip(col as int));
            lemma_byte_len_concat(t.take(col as int), t.skip(col as int));
            assert(t.take(col as int).push(c).drop_last() =~= t.take(col as int));
            lemma_byte_len_prefix(t, col as int, t.len() as int);
            assert(t.take(t.len() as int) =~= t);
        }
        *self = Field { buf, cursor: cursor + w, col: Ghost((col + 1) as nat) };
    }

    /// Deletes the character before the cursor, if any.
    pub fn delete_char(&mut self)
        ensures
            old(self)@.in_range(),
            final(self)@ == old(self)@.after_delete(),
            final(self)@.in_range(),
    {
        let col = self.locate();
        if col == 0 {
            return;
        }
        let ghost t = self.buf@;
        let before = char_utf8_len(self.buf[col - 1]);
        proof {
            assert(t.take(col as int).drop_last() =~= t.take(col - 1));
        }
        let new_pos = self.cursor - before;
        let mut old_field = Field::new();
        std::mem::swap(&mut old_field, self);
        let Field { buf: mut buf, .. } = old_field;
        let _ = buf.remove(col - 1);
        proof {
            assert(buf@ =~= t.remove(col - 1));
            assert(buf@.take(col - 1) =~= t.take(col - 1));
            assert(t =~= t.take(col as int) + t.skip(col as int));
            assert(buf@ =~= t.take(col - 1) + t.skip(col as int));
            lemma_byte_len_concat(t.take(col as int), t.skip(col as int));
            lemma_byte_len_concat(t.take(col - 1), t.skip(col as int));
        }
        *self = Field { buf, cursor: new_pos, col: Ghost((col - 1) as nat) };
    }

    /// Moves the cursor one character to the left, if possible.
    pub fn move_left(&mut self)
        ensures
            old(self)@.in_range(),
            final(self)@ == old(self)@.after_left(),
            final(self)@.in_range(),
    {
        let col = self.locate();
        if col == 0 {
            return;
        }
        let before = char_utf8_len(self.buf[col - 1]);
        proof {
            assert(self.buf@.take(col as int).drop_last() =~= self.buf@.take(col - 1));
        }
        let cursor = self.cursor - before;
        let mut old_field = Field::new();
        std::mem::swap(&mut old_field, self);
        let Field { buf, .. } = old_field;
        *self = Field { buf, cursor, col: Ghost((col - 1) as nat) };
    }

    /// Moves the cursor one character to the right, if possible.
    pub fn move_right(&mut self)
        ensures
            old(self)@.in_range(),
            final(self)@ == old(self)@.after_right(),
            final(self)@.in_range(),
    {
        let col = self.locate();
        if col >= self.buf.len() {
            return;
        }
        let after = char_utf8_len(self.buf[col]);
        proof {
            assert(self.buf@.take(col + 1).drop_last() =~= self.buf@.take(col as int));
            lemma_byte_len_prefix(self.buf@, col + 1, self.buf@.len() as int);
            assert(self.buf@.take(self.buf@.len() as int) =~= self.buf@);
        }
        let cursor = self.cursor + after;
        let mut old_field = Field::new();
        std::mem::swap(&mut old_field, self);
        let Field { buf, .. } = old_field;
        *self = Field { buf, cursor, col: Ghost((col + 1) as nat) };
    }

    /// Column of the cursor, in characters, as a terminal coordinate.
    pub fn cursor_col(&self) -> (c: u16)
        ensures
            c == self@.col as u16,
            self@.in_range(),
    {
        let col = self.locate();
        col as u16
    }
}

/// Which field of the store receives input.
#[derive(Clone, Copy, Debug, PartialEq, Eq, Structural)]
pub enum KvFocus {
    Key,
    Value,
}

impl KvFocus {
    /// The other field.
    pub open spec fn toggle_spec(self) -> KvFocus {
        match self {
            KvFocus::Key => KvFocus::Value,
            KvFocus::Value => KvFocus::Key,
        }
    }

    /// The other field.
    pub fn toggle(self) -> (r: Self)
        ensures
            r == match self {
                KvFocus::Key => KvFocus::Value,
                KvFocus::Value => KvFocus::Key,
            },
    {
        match self {
            KvFocus::Key => KvFocus::Value,
            KvFocus::Value => KvFocus::Key,
        }
    }
}

/// The store popup's state.
pub struct KvStoreView {
    pub node: Option<Seq<char>>,
    pub key: FieldView,
    pub value: FieldView,
    pub focus: KvFocus,
}

/// Popup for entering a key and a value to store as a Kademlia record.
pub struct KvStore {
    node: Option<String>,
    key: Field,
    value: Field,
    focus: KvFocus,
}

impl View for KvStore {
    type V = KvStoreView;

    closed spec fn view(&self) -> KvStoreView {
        KvStoreView {
            node: match self.node {
                Some(p) => Some(p@),
                None => None,
            },
            key: self.key@,
            value: self.value@,
            focus: self.focus,
        }
    }
}

/// The field of `s` that has the focus.
pub open spec fn focused(s: KvStoreView) -> FieldView {
    match s.focus {
        KvFocus::Key => s.key,
        KvFocus::Value => s.value,
    }
}

/// `s` with the focused field replaced by `f`.
pub open spec fn with_focused(s: KvStoreView, f: FieldView) -> KvStoreView {
    match s.focus {
        KvFocus::Key => KvStoreView { key: f, ..s },
        KvFocus::Value => KvStoreView { value: f, ..s },
    }
}

/// The store popup's state after `key`: only a popup with a node changes.
pub open spec fn kv_after_key(s: KvStoreView, key: Key) -> KvStoreView {
    if s.node is None {
        s
    } else {
        let f = focused(s);
        match key {
            Key::Tab => KvStoreView { focus: s.focus.toggle_spec(), ..s },
            Key::Char(c) => with_focused(s, f.after_insert(c)),
            Key::Backspace => with_focused(s, f.after_delete()),
            Key::Left => with_focused(s, f.after_left()),
            Key::Right => with_focused(s, f.after_right()),
            _ => s,
        }
    }
}

/// Both fields' cursors are within their texts.
pub open spec fn fields_in_range(s: KvStoreView) -> bool {
    s.key.in_range() && s.value.in_range()
}

/// The actions the store popup queues on `key`.
pub open spec fn kv_emits(s: KvStoreView, key: Key) -> Seq<ActionView> {
    match s.node {
        None => seq![],
        Some(peer) => match key {
            Key::Esc => seq![ActionView::Popup { content: PopUpContent::NodeCommands, peer_id: peer }],
            Key::Enter => seq![
                ActionView::PutRecord { peer_id: peer, key: s.key.text, value: s.value.text },
                ActionView::Popup { content: PopUpContent::NodeCommands, peer_id: peer },
            ],
            _ => seq![],
        },
    }
}

impl KvStore {
    /// Two empty fields, the key focused, no node.
    pub fn new() -> (s: Self)
        ensures
            s@.node is None,
            s@.key.text == Seq::<char>::empty() && s@.key.col == 0,
            s@.value.text == Seq::<char>::empty() && s@.value.col == 0,
            s@.focus == KvFocus::Key,
            fields_in_range(s@),
    {
        KvStore { node: None, key: Field::new(), value: Field::new(), focus: KvFocus::Key }
    }

    /// Sets the node the record goes to.
    pub fn set_node(&mut self, node: String)
        ensures
            final(self)@ == (KvStoreView { node: Some(node@), ..old(self)@ }),
            fields_in_range(final(self)@),
    {
        proof {
            use_type_invariant(&self.key);
            use_type_invariant(&self.value);
        }
        self.node = Some(node);
    }

    /// Whether the popup can take `key`: a typed character must still fit the
    /// field's encoding in memory.
    pub open spec fn accepts(&self, key: Key) -> bool {
        key matches Key::Char(c) ==> byte_len(focused(self@).text) + utf8_len(c) <= usize::MAX
    }

    /// Whether the popup can take `key`.
    pub fn takes(&self, key: Key) -> (b: bool)
        ensures
            b == self.accepts(key),
    {
        match key {
            Key::Char(c) => match self.focus {
                KvFocus::Key => self.key.fits(c),
                KvFocus::Value => self.value.fits(c),
            },
            _ => true,
        }
    }

    /// With a node set: Esc goes back to the node's commands, Tab switches
    /// field, characters, Backspace, Left and Right edit the focused field,
    /// Enter queues the record and goes back to the node's commands.
    pub fn handle_key_event(&mut self, key: Key, actions: &mut ActionQueue)
        requires
            old(self).accepts(key),
        ensures
            fields_in_range(old(self)@),
            final(self)@ == kv_after_key(old(self)@, key),
            final(actions)@ == old(actions)@ + kv_emits(old(self)@, key),
            fields_in_range(final(self)@),
    {
        proof {
            use_type_invariant(&self.key);
            use_type_invariant(&self.value);
        }
        let peer_id = match &self.node {
            Some(p) => p.clone(),
            None => {
                return ;
            },
        };
        match key {
            Key::Esc => {
                actions.push(Action::Popup { content: PopUpContent::NodeCommands, peer_id });
            },
            Key::Tab => {
                self.focus = self.focus.toggle();
            },
            Key::Char(c) => match self.focus {
                KvFocus::Key => self.key.insert_char(c),
                KvFocus::Value => self.value.insert_char(c),
            },
            Key::Backspace => match self.focus {
                KvFocus::Key => self.key.delete_char(),
                KvFocus::Value => self.value.delete_char(),
            },
            Key::Left => match self.focus {
                KvFocus::Key => self.key.move_left(),
                KvFocus::Value => self.value.move_left(),
            },
            Key::Right => match self.focus {
                KvFocus::Key => self.key.move_right(),
                KvFocus::Value => self.value.move_right(),
            },
            Key::Enter => {
                let key_text = self.key.text();
                let value_text = self.value.text();
                actions.push(Action::PutRecord { peer_id: peer_id.clone(), key: key_text, value: value_text });
                actions.push(Action::Popup { content: PopUpContent::NodeCommands, peer_id });
            },
            _ => {},
        }
    }

    /// The focused field, for placing the terminal cursor.
    pub fn focus(&self) -> (f: KvFocus)
        ensures
            f == self@.focus,
    {
        self.focus
    }

    /// The text of the key field.
    pub fn key_text(&self) -> (s: String)
        ensures
            s@ == self@.key.text,
    {
        self.key.text()
    }

    /// The text of the value field.
    pub fn value_text(&self) -> (s: String)
        ensures
            s@ == self@.value.text,
    {
        self.value.text()
    }

    /// The cursor column of the focused field.
    pub fn cursor_col(&self) -> (c: u16)
        ensures
            c == focused(self@).col as u16,
    {
        match self.focus {
            KvFocus::Key => self.key.cursor_col(),
            KvFocus::Value => self.value.cursor_col(),
        }
    }

    /// Whether a node is set.
    pub fn has_node(&self) -> (b: bool)
        ensures
            b == self@.node is Some,
    {
        self.node.is_some()
    }
}

} // verus!
