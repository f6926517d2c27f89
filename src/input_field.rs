use vstd::prelude::*;
use vstd::string::*;
use crate::decimal::{parse_decimal, Decimal};
use crate::text::{char_string, join3};

verus! {

/// The mathematical state of a text input editor.
pub struct FieldModel {
    pub label: Seq<char>,
    pub value: Seq<char>,
    pub cursor: nat,
    pub focused: bool,
    pub placeholder: Seq<char>,
}

/// One editing operation on a text input editor.
#[derive(Clone, Copy, PartialEq, Eq, Structural, Debug)]
pub enum EditOp {
    Insert(char),
    DeleteBefore,
    DeleteAt,
    Left,
    Right,
    Start,
    End,
}

impl FieldModel {
    /// The cursor lies within the buffer.
    pub open spec fn wf(self) -> bool {
        self.cursor <= self.value.len()
    }

    pub open spec fn insert(self, c: char) -> FieldModel {
        if self.cursor < usize::MAX {
            FieldModel {
                value: self.value.insert(self.cursor as int, c),
                cursor: self.cursor + 1,
                ..self
            }
        } else {
            self
        }
    }

    pub open spec fn delete_before(self) -> FieldModel {
        if self.cursor > 0 {
            FieldModel {
                value: self.value.remove(self.cursor - 1),
                cursor: (self.cursor - 1) as nat,
                ..self
            }
        } else {
            self
        }
    }

    pub open spec fn delete_at(self) -> FieldModel {
        if self.cursor < self.value.len() {
            FieldModel { value: self.value.remove(self.cursor as int), ..self }
        } else {
            self
        }
    }

    pub open spec fn left(self) -> FieldModel {
        if self.cursor > 0 {
            FieldModel { cursor: (self.cursor - 1) as nat, ..self }
        } else {
            self
        }
    }

    pub open spec fn right(self) -> FieldModel {
        if self.cursor < self.value.len() {
            FieldModel { cursor: self.cursor + 1, ..self }
        } else {
            self
        }
    }

    pub open spec fn start(self) -> FieldModel {
        FieldModel { cursor: 0, ..self }
    }

    pub open spec fn end(self) -> FieldModel {
        FieldModel { cursor: self.value.len(), ..self }
    }

    pub open spec fn apply(self, op: EditOp) -> FieldModel {
        match op {
            EditOp::Insert(c) => self.insert(c),
            EditOp::DeleteBefore => self.delete_before(),
            EditOp::DeleteAt => self.delete_at(),
            EditOp::Left => self.left(),
            EditOp::Right => self.right(),
            EditOp::Start => self.start(),
            EditOp::End => self.end(),
        }
    }

    pub open spec fn with_value(self, v: Seq<char>) -> FieldModel {
        FieldModel { value: v, cursor: v.len(), ..self }
    }

    pub open spec fn with_focus(self, focused: bool) -> FieldModel {
        FieldModel { focused: focused, ..self }
    }
}

/// Every edit keeps the cursor within the buffer.
pub proof fn lemma_edit_keeps_cursor_in_bounds(m: FieldModel, op: EditOp)
    requires
        m.wf(),
    ensures
        m.apply(op).wf(),
        m.apply(op).label == m.label,
        m.apply(op).focused == m.focused,
        m.apply(op).placeholder == m.placeholder,
{
}

/// Any sequence of edits keeps the cursor within the buffer.
pub proof fn lemma_edits_keep_cursor_in_bounds(m: FieldModel, ops: Seq<EditOp>)
    requires
        m.wf(),
    ensures
        apply_all(m, ops).wf(),
    decreases ops.len(),
{
    if ops.len() > 0 {
        lemma_edit_keeps_cursor_in_bounds(m, ops[0]);
        lemma_edits_keep_cursor_in_bounds(m.apply(ops[0]), ops.drop_first());
    }
}

/// The editor after applying `ops` in order.
pub open spec fn apply_all(m: FieldModel, ops: Seq<EditOp>) -> FieldModel
    decreases ops.len(),
{
    if ops.len() == 0 {
        m
    } else {
        apply_all(m.apply(ops[0]), ops.drop_first())
    }
}

/// What an editor shows: its placeholder, its text split around the cursor, or its text.
pub enum DisplayModel {
    Placeholder(Seq<char>),
    Cursor(Seq<char>, char, Seq<char>),
    Plain(Seq<char>),
}

impl FieldModel {
    /// An empty unfocused editor shows its placeholder; a focused one shows the text before
    /// the cursor, the character under it (a space at the end) and the text after it.
    pub open spec fn display(self) -> DisplayModel {
        if self.value.len() == 0 && !self.focused {
            DisplayModel::Placeholder(self.placeholder)
        } else if self.focused {
            if self.cursor < self.value.len() {
                DisplayModel::Cursor(
                    self.value.take(self.cursor as int),
                    self.value[self.cursor as int],
                    self.value.skip(self.cursor + 1int),
                )
            } else {
                DisplayModel::Cursor(self.value.take(self.cursor as int), ' ', Seq::empty())
            }
        } else {
            DisplayModel::Plain(self.value)
        }
    }
}

/// What an editor shows.
pub enum FieldDisplay {
    Placeholder(String),
    /// The text before the cursor, the character under it, and the text after it
    Cursor(String, char, String),
    Plain(String),
}

impl View for FieldDisplay {
    type V = DisplayModel;

    open spec fn view(&self) -> DisplayModel {
        match self {
            FieldDisplay::Placeholder(p) => DisplayModel::Placeholder(p@),
            FieldDisplay::Cursor(a, c, b) => DisplayModel::Cursor(a@, *c, b@),
            FieldDisplay::Plain(t) => DisplayModel::Plain(t@),
        }
    }
}

/// A single editable text buffer with a cursor counted in characters.
pub struct InputField {
    /// The label for this field
    pub label: String,
    /// The current text value
    pub value: String,
    /// Cursor position, in characters
    pub cursor: usize,
    /// Whether this field is currently focused
    pub focused: bool,
    /// Placeholder text when empty
    pub placeholder: String,
}

impl View for InputField {
    type V = FieldModel;

    open spec fn view(&self) -> FieldModel {
        FieldModel {
            label: self.label@,
            value: self.value@,
            cursor: self.cursor as nat,
            focused: self.focused,
            placeholder: self.placeholder@,
        }
    }
}

impl InputField {
    pub open spec fn wf(&self) -> bool {
        self@.wf()
    }

    pub fn new(label: &str) -> (r: Self)
        ensures
            r@ == (FieldModel {
                label: label@,
                value: Seq::empty(),
                cursor: 0,
                focused: false,
                placeholder: Seq::empty(),
            }),
    {
        InputField {
            label: String::from_str(label),
            value: String::new(),
            cursor: 0,
            focused: false,
            placeholder: String::new(),
        }
    }

    pub fn with_value(self, value: &str) -> (r: Self)
        ensures
            r@ == self@.with_value(value@),
    {
        let mut s = self;
        s.set_value(value);
        s
    }

    pub fn with_placeholder(self, placeholder: &str) -> (r: Self)
        ensures
            r@ == (FieldModel { placeholder: placeholder@, ..self@ }),
    {
        let mut s = self;
        s.placeholder = String::from_str(placeholder);
        s
    }

    /// Insert a character at the cursor position
    pub fn insert_char(&mut self, c: char)
        requires
            old(self).wf(),
        ensures
            final(self)@ == old(self)@.insert(c),
    {
        if self.cursor < usize::MAX {
            let len = self.value.as_str().unicode_len();
            let before = self.value.as_str().substring_char(0, self.cursor);
            let after = self.value.as_str().substring_char(self.cursor, len);
            let mid = char_string(c);
            let joined = join3(before, mid.as_str(), after);
            proof {
                assert(joined@ =~= old(self).value@.insert(self.cursor as int, c));
            }
            self.value = joined;
            self.cursor = self.cursor + 1;
        }
    }

    /// Delete the character before the cursor (backspace)
    pub fn delete_char(&mut self)
        requires
            old(self).wf(),
        ensures
            final(self)@ == old(self)@.delete_before(),
    {
        if self.cursor > 0 {
            let len = self.value.as_str().unicode_len();
            let before = self.value.as_str().substring_char(0, self.cursor - 1);
            let after = self.value.as_str().substring_char(self.cursor, len);
            let joined = join3(before, "", after);
            proof {
                reveal_strlit("");
                assert(joined@ =~= old(self).value@.remove(self.cursor - 1));
            }
            self.value = joined;
            self.cursor = self.cursor - 1;
        }
    }

    /// Delete the character at the cursor (delete key)
    pub fn delete_char_forward(&mut self)
        requires
            old(self).wf(),
        ensures
            final(self)@ == old(self)@.delete_at(),
    {
        let len = self.value.as_str().unicode_len();
        if self.cursor < len {
            let before = self.value.as_str().substring_char(0, self.cursor);
            let after = self.value.as_str().substring_char(self.cursor + 1, len);
            let joined = join3(before, "", after);
            proof {
                reveal_strlit("");
                assert(joined@ =~= old(self).value@.remove(self.cursor as int));
            }
            self.value = joined;
        }
    }

    /// Move cursor left
    pub fn move_cursor_left(&mut self)
        ensures
            final(self)@ == old(self)@.left(),
    {
        if self.cursor > 0 {
            self.cursor = self.cursor - 1;
        }
    }

    /// Move cursor right
    pub fn move_cursor_right(&mut self)
        ensures
            final(self)@ == old(self)@.right(),
    {
        let len = self.value.as_str().unicode_len();
        if self.cursor < len {
            self.cursor = self.cursor + 1;
        }
    }

    /// Move cursor to start
    pub fn move_cursor_start(&mut self)
        ensures
            final(self)@ == old(self)@.start(),
    {
        self.cursor = 0;
    }

    /// Move cursor to end
    pub fn move_cursor_end(&mut self)
        ensures
            final(self)@ == old(self)@.end(),
    {
        self.cursor = self.value.as_str().unicode_len();
    }

    /// Apply one editing operation.
    pub fn apply(&mut self, op: EditOp)
        requires
            old(self).wf(),
        ensures
            final(self)@ == old(self)@.apply(op),
    {
        match op {
            EditOp::Insert(c) => self.insert_char(c),
            EditOp::DeleteBefore => self.delete_char(),
            EditOp::DeleteAt => self.delete_char_forward(),
            EditOp::Left => self.move_cursor_left(),
            EditOp::Right => self.move_cursor_right(),
            EditOp::Start => self.move_cursor_start(),
            EditOp::End => self.move_cursor_end(),
        }
    }

    /// Clear the field
    pub fn clear(&mut self)
        ensures
            final(self)@ == old(self)@.with_value(Seq::empty()),
    {
        self.value = String::new();
        self.cursor = 0;
    }

    /// Get the value as a string
    pub fn get_value(&self) -> (r: &str)
        ensures
            r@ == self.value@,
    {
        self.value.as_str()
    }

    /// Set the value; the cursor goes to its end.
    pub fn set_value(&mut self, value: &str)
        ensures
            final(self)@ == old(self)@.with_value(value@),
    {
        self.value = String::from_str(value);
        self.cursor = value.unicode_len();
    }

    /// The buffer read as a decimal number, or `None` where it is none.
    pub fn numeric_value(&self) -> (r: Option<Decimal>)
        ensures
            r == parse_decimal(self.value@),
    {
        Decimal::parse(self.value.as_str())
    }

    /// What the editor shows.
    pub fn display(&self) -> (r: FieldDisplay)
        requires
            self.wf(),
        ensures
            r@ == self@.display(),
    {
        let len = self.value.as_str().unicode_len();
        if len == 0 && !self.focused {
            FieldDisplay::Placeholder(self.placeholder.clone())
        } else if self.focused {
            let before = String::from_str(self.value.as_str().substring_char(0, self.cursor));
            if self.cursor < len {
                let at = self.value.as_str().get_char(self.cursor);
                let after = String::from_str(
                    self.value.as_str().substring_char(self.cursor + 1, len),
                );
                FieldDisplay::Cursor(before, at, after)
            } else {
                FieldDisplay::Cursor(before, ' ', String::new())
            }
        } else {
            FieldDisplay::Plain(self.value.clone())
        }
    }

    /// Set focus state
    pub fn set_focused(&mut self, focused: bool)
        ensures
            final(self)@ == old(self)@.with_focus(focused),
    {
        self.focused = focused;
    }
}

} // verus!
