//! A text field that edits one scalar.

use core::marker::PhantomData;
use vstd::prelude::*;
use crate::editor::{
    advanced,
    caret_ok,
    editor_cursor,
    editor_cursor_to_end,
    editor_input,
    editor_lines,
    editor_new,
    editor_selecting,
    editor_snapshot,
    typed_lines,
    views,
    Editor,
};
use crate::key::Input;
use crate::scalar::Scalar;

verus! {

/// A single-line text field whose text is meant to read as a `T`.
pub struct Filtext<T: Scalar> {
    /// The editing widget that holds the text.
    pub input: Editor,
    /// Whether an edit that leaves the text unreadable is taken back.
    pub validate_input: bool,
    /// Ties the field to its scalar type; it holds nothing.
    pub _phantom: PhantomData<T>,
}

/// What a field shows and how it takes edits.
pub struct FieldView {
    /// The lines its editor holds.
    pub lines: Seq<Seq<char>>,
    /// Whether it takes back an edit that leaves its text unreadable.
    pub validate: bool,
}

impl<T: Scalar> View for Filtext<T> {
    type V = FieldView;

    open spec fn view(&self) -> FieldView {
        FieldView { lines: editor_lines(self.input), validate: self.validate_input }
    }
}

/// The view of a field that nobody has typed in yet.
pub open spec fn fresh_field<T: Scalar>() -> FieldView {
    FieldView { lines: seq![T::text_of(T::default_value())], validate: false }
}

/// The lines of `lines`, one after the other, as one text.
pub fn join_lines(lines: &Vec<String>) -> (text: String)
    ensures
        text@ == views(lines@).flatten(),
{
    let mut text = String::new();
    let mut i: usize = 0;
    assert(views(lines@).take(0) =~= Seq::<Seq<char>>::empty());
    while i < lines.len()
        invariant
            i <= lines.len(),
            text@ == views(lines@).take(i as int).flatten(),
        decreases lines.len() - i,
    {
        text.append(lines[i].as_str());
        proof {
            let all = views(lines@);
            assert(all.take(i + 1) =~= all.take(i as int).push(all[i as int]));
            all.take(i as int).lemma_flatten_push(all[i as int]);
        }
        i += 1;
    }
    assert(views(lines@).take(i as int) =~= views(lines@));
    text
}

impl<T: Scalar> Filtext<T> {
    /// The lines the field's editor holds.
    pub open spec fn lines(&self) -> Seq<Seq<char>> {
        editor_lines(self.input)
    }

    /// The field's text: its lines, one after the other.
    pub open spec fn text(&self) -> Seq<char> {
        self.lines().flatten()
    }

    /// The value the field's text stands for, if it stands for one.
    pub open spec fn spec_value(&self) -> Option<T::V> {
        T::parsed(self.text())
    }

    /// A field that shows the default value of `T` and keeps every edit. Its
    /// cursor stands behind the text, so that typing goes on behind it, and
    /// nothing is selected.
    pub fn new() -> (field: Self)
        ensures
            field@ == fresh_field::<T>(),
            field.text() == T::text_of(T::default_value()),
            field.cursor() == (0nat, T::text_of(T::default_value()).len()),
            !field.selecting(),
            field.at_rest(),
    {
        broadcast use Seq::lemma_flatten_singleton;

        let text = T::initial().to_text();
        let mut lines: Vec<String> = Vec::new();
        lines.push(text);
        assert(views(lines@) =~= seq![T::text_of(T::default_value())]);
        let mut input = editor_new(lines);
        editor_cursor_to_end(&mut input);
        Filtext { input, validate_input: false, _phantom: PhantomData }
    }

    /// The field's text.
    pub fn value_string(&self) -> (text: String)
        ensures
            text@ == self.text(),
    {
        let lines = editor_snapshot(&self.input);
        join_lines(&lines)
    }

    /// The value the text stands for, or `None` while the text does not read
    /// as a `T`.
    pub fn value(&self) -> (value: Option<T>)
        ensures
            match value {
                Some(v) => self.spec_value() == Some(v@),
                None => self.spec_value() is None,
            },
    {
        let text = self.value_string();
        T::parse(text.as_str())
    }

    /// Where the cursor of the field's editor stands.
    pub open spec fn cursor(&self) -> (nat, nat) {
        editor_cursor(self.input)
    }

    /// Whether a selection is under way in the field's editor.
    pub open spec fn selecting(&self) -> bool {
        editor_selecting(self.input)
    }

    /// Whether `input` puts one character into the field's line: it is a
    /// character other than a line break, typed without Ctrl or Alt while
    /// nothing is selected.
    pub open spec fn types(&self, input: Input) -> bool {
        input.is_text() && !self.selecting() && caret_ok(self.lines(), self.cursor())
    }

    /// The lines of the field with the character of `input` put in at the
    /// cursor.
    pub open spec fn typed(&self, input: Input) -> Seq<Seq<char>> {
        typed_lines(self.lines(), self.cursor(), input.typed_char())
    }

    /// Whether the field is at rest: the cursor stands behind the last
    /// character of its line, and nothing is selected.
    pub open spec fn at_rest(&self) -> bool {
        &&& caret_ok(self.lines(), self.cursor())
        &&& self.cursor().1 == self.lines()[self.cursor().0 as int].len()
        &&& !self.selecting()
    }

    /// Whether the field takes the character that `input` types: `input`
    /// types one, and the field does not refuse it.
    pub open spec fn takes(&self, input: Input) -> bool {
        self.types(input) && !self.refuses(input)
    }

    /// Whether the field is `before` with the character of `input` typed
    /// into it: the character stands at the cursor of `before`, the cursor
    /// behind it, and nothing is selected.
    pub open spec fn typed_from(&self, before: Self, input: Input) -> bool {
        &&& self.lines() == before.typed(input)
        &&& self.cursor() == advanced(before.cursor())
        &&& !self.selecting()
        &&& self.validate_input == before.validate_input
    }

    /// Whether an edit that started from `snapshot` must be taken back: the
    /// field validates, its text no longer reads as a `T`, and the text it
    /// had before was not empty.
    pub open spec fn rejects(&self, snapshot: Seq<Seq<char>>) -> bool {
        self.validate_input && self.spec_value() is None && snapshot.flatten().len() > 0
    }

    /// Whether a validating field takes back the character that `input`
    /// types: with it the text would not read as a `T`, and the text before
    /// it is not empty.
    pub open spec fn refuses(&self, input: Input) -> bool {
        self.validate_input && T::parsed(self.typed(input).flatten()) is None && self.text().len()
            > 0
    }

    /// Settles an edit the editor has just made. `snapshot` holds the lines
    /// from before the edit and `modified` is what the editor reported. A
    /// rejected edit is undone: the field holds the snapshot again, with the
    /// cursor before its first character, and the key counts as unhandled.
    /// Any other edit stands, with the editor's report.
    pub fn settle(&mut self, snapshot: Vec<String>, modified: bool) -> (handled: bool)
        ensures
            final(self).validate_input == old(self).validate_input,
            old(self).rejects(views(snapshot@)) ==> !handled && final(self).lines() == views(
                snapshot@,
            ) && final(self).cursor() == (0nat, 0nat) && !final(self).selecting(),
            !old(self).rejects(views(snapshot@)) ==> handled == modified && final(self).input
                == old(self).input,
    {
        if self.validate_input {
            let unreadable = self.value().is_none();
            if unreadable {
                let before = join_lines(&snapshot);
                if before.as_str().unicode_len() > 0 {
                    proof {
                        if snapshot@.len() == 0 {
                            assert(views(snapshot@) =~= Seq::<Seq<char>>::empty());
                        }
                    }
                    self.input = editor_new(snapshot);
                    return false;
                }
            }
        }
        modified
    }

    /// Hands a key event to the field. The result says whether the field used
    /// the key.
    ///
    /// - An arrow key is never used and leaves the text as it was.
    /// - A character other than a line break, typed without Ctrl or Alt while
    ///   nothing is selected, goes into the line at the cursor and moves the
    ///   cursor behind it; the key is used. A validating field refuses it if
    ///   the text would no longer read as a `T` and was not empty before: then
    ///   the text stays, the cursor goes before its first character, and the
    ///   key is unused.
    /// - While nothing is selected, an unused key leaves the text as it was.
    /// - A validating field whose text was not empty never ends up with
    ///   unreadable text it did not start from.
    pub fn input(&mut self, input: Input) -> (handled: bool)
        ensures
            final(self).validate_input == old(self).validate_input,
            caret_ok(final(self).lines(), final(self).cursor()),
            input.key.is_arrow() ==> !handled && final(self)@ == old(self)@,
            input.key.is_arrow() && !input.shift && !old(self).selecting() ==> !final(self).selecting(),
            input.is_typed() && !old(self).validate_input ==> handled,
            old(self).takes(input) ==> handled && final(self).typed_from(*old(self), input),
            old(self).types(input) && old(self).refuses(input) ==> !handled && final(self).lines()
                == old(self).lines() && final(self).cursor() == (0nat, 0nat) && !final(self).selecting(),
            !handled && !old(self).selecting() ==> final(self)@ == old(self)@,
            old(self).validate_input && old(self).text().len() > 0 ==> final(self).spec_value()
                is Some || (!handled && final(self)@ == old(self)@),
    {
        if self.validate_input {
            let snapshot = editor_snapshot(&self.input);
            let modified = editor_input(&mut self.input, input);
            self.settle(snapshot, modified)
        } else {
            editor_input(&mut self.input, input)
        }
    }
}

/// A fresh field yields the default value of its type, provided the text of
/// the default reads back as the default.
pub proof fn lemma_fresh_field_yields_default<T: Scalar>(field: Filtext<T>)
    requires
        field.text() == T::text_of(T::default_value()),
        T::parsed(T::text_of(T::default_value())) == Some(T::default_value()),
    ensures
        field.spec_value() == Some(T::default_value()),
{
}

} // verus!
