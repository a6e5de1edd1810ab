//! A record with a single free-text field, and its form.

use vstd::prelude::*;
use crate::area::{Direction, Rect};
use crate::filtext::{fresh_field, FieldView, Filtext};
use crate::focus::{record_moved, record_step, settle_record};
use crate::key::{Input, Key};
use crate::paint::{
    append_plan,
    areas_of,
    columns,
    divides,
    headed,
    nested_head,
    nested_row_marks,
    plan_of,
    lemma_plan_within_part,
    lengths,
    lemma_shown,
    marks_in,
    areas_in,
    paint_in,
    painted,
    PaintView,
    marks_of,
    paint,
    plan_within,
    rows_of,
    scalar_row,
    scalar_row_marks,
    Mark,
    Paint,
};
use crate::surface::{buffer_bounds, buffer_cells, same_outside};
use ratatui::buffer::Buffer;

verus! {

/// A record with one field of free text.
#[derive(Debug, PartialEq)]
pub struct Whatever {
    pub foo: String,
}

/// A `Whatever` in contracts.
pub struct WhateverView {
    pub foo: Seq<char>,
}

impl View for Whatever {
    type V = WhateverView;

    open spec fn view(&self) -> WhateverView {
        WhateverView { foo: self.foo@ }
    }
}

impl Default for Whatever {
    fn default() -> (value: Whatever)
        ensures
            value@ == (WhateverView { foo: Seq::empty() }),
    {
        Whatever { foo: String::new() }
    }
}

/// The form of a `Whatever`: one text field.
pub struct WhateverForm {
    pub foo: Filtext<String>,
    /// The index of the field that has the focus.
    pub selected: usize,
}

/// The state of a `WhateverForm`.
pub struct WhateverFormView {
    pub foo: FieldView,
    pub selected: usize,
}

impl View for WhateverForm {
    type V = WhateverFormView;

    open spec fn view(&self) -> WhateverFormView {
        WhateverFormView { foo: self.foo@, selected: self.selected }
    }
}

impl WhateverFormView {
    /// Whether the field that has the focus uses every character typed: there
    /// is such a field, and it does not validate.
    pub open spec fn takes_typing(self) -> bool {
        self.selected == 0 && !self.foo.validate
    }

    /// Which fields take back unreadable edits, field by field in order.
    pub open spec fn validation(self) -> Seq<bool> {
        seq![self.foo.validate]
    }

    /// The state after an arrow key, and whether the key was used: the text
    /// field leaves it to the focus.
    pub open spec fn arrowed(self, key: Key) -> (WhateverFormView, bool) {
        (
            WhateverFormView { selected: record_moved(self.selected, 1, key), ..self },
            record_step(self.selected, 1, key) is Some,
        )
    }
}

/// The state of a `WhateverForm` in which nothing has been typed.
pub open spec fn fresh_whatever_form() -> WhateverFormView {
    WhateverFormView { foo: fresh_field::<String>(), selected: 0 }
}

impl WhateverForm {
    /// The focus is on a field of the form.
    pub open spec fn wf(&self) -> bool {
        self.selected < 1
    }

    /// Whether every field is at rest: its cursor stands behind its text and
    /// nothing is selected.
    pub open spec fn at_rest(&self) -> bool {
        self.foo.at_rest()
    }

    /// Whether a selection is under way in the field that has the focus.
    pub open spec fn focus_selecting(&self) -> bool {
        self.selected == 0 && self.foo.selecting()
    }

    /// Whether the field that has the focus takes the character that `input`
    /// types.
    pub open spec fn takes(&self, input: Input) -> bool {
        self.selected == 0 && self.foo.takes(input)
    }

    /// Whether the form is `before` with the character of `input` typed into
    /// the field that has the focus, and nothing else changed.
    pub open spec fn typed_from(&self, before: Self, input: Input) -> bool {
        self.selected == before.selected && self.foo.typed_from(before.foo, input)
    }

    /// The number of lines the form asks for: one for each field, and one
    /// more.
    pub open spec fn spec_height(&self) -> nat {
        1 + 1
    }

    /// The record that the form's fields stand for, if each of them stands
    /// for a value.
    pub open spec fn spec_build(&self) -> Option<WhateverView> {
        match self.foo.spec_value() {
            Some(foo) => Some(WhateverView { foo }),
            None => None,
        }
    }

    /// What row `row` of the form shows.
    pub open spec fn row_marks(&self, row: int, focused: bool) -> Seq<Mark> {
        if row == 0 {
            scalar_row_marks("foo"@, self.foo.lines(), focused && self.selected == 0)
        } else {
            Seq::empty()
        }
    }

    /// The heights the form asks for its rows: one line for its field.
    pub open spec fn row_heights(&self) -> Seq<u16> {
        seq![1u16]
    }

    /// Whether `areas` is where the form's paints go in `area`: `area` is
    /// divided from top to bottom into rows of the heights the form asks,
    /// and the row into the two columns of a scalar field.
    pub open spec fn placed(&self, area: Rect, areas: Seq<Rect>) -> bool {
        exists|rows: Seq<Rect>|
            {
                &&& #[trigger] divides(Direction::Vertical, lengths(self.row_heights()), area, rows)
                &&& rows.len() == 1
                &&& areas.len() == 2
                &&& columns(rows[0], areas[0], areas[1])
            }
    }

    /// What the form shows: its rows from top to bottom.
    pub open spec fn marks(&self, focused: bool) -> Seq<Mark> {
        self.row_marks(0, focused)
    }

    /// A form in which nothing has been typed, with the focus on the first
    /// field.
    pub fn new() -> (form: Self)
        ensures
            form@ == fresh_whatever_form(),
            form.wf(),
            form.at_rest(),
    {
        WhateverForm { foo: Filtext::new(), selected: 0 }
    }

    /// The number of lines the form asks for.
    pub fn form_height(&self) -> (height: u16)
        ensures
            height == self.spec_height(),
    {
        0 + 1 + 1
    }

    /// Hands a key event to the form: first to the field that has the focus
    /// and, if that field does not use it, to the focus itself. The result
    /// says whether the key was used. A key that nothing used moves no
    /// focus; a key that moved the focus changed no field. What an arrow
    /// key does is settled by the state alone. No key changes which fields
    /// validate, and a character typed without Ctrl or Alt is used whenever
    /// the field that has the focus does not validate.
    pub fn input(&mut self, input: Input) -> (handled: bool)
        requires
            old(self).wf(),
        ensures
            final(self).wf(),
            final(self)@.validation() == old(self)@.validation(),
            input.is_typed() && old(self)@.takes_typing() ==> handled && final(self).selected
                == old(self).selected,
            input.key.is_arrow() ==> (final(self)@, handled) == old(self)@.arrowed(input.key),
            old(self).takes(input) ==> handled && final(self).typed_from(*old(self), input),
            !handled && !old(self).focus_selecting() ==> final(self)@ == old(self)@,
            !handled ==> final(self).selected == old(self).selected && record_step(
                old(self).selected,
                1,
                input.key,
            ) is None,
            final(self).selected != old(self).selected ==> handled && final(self).selected
                == record_moved(old(self).selected, 1, input.key) && final(self).foo@ == old(self).foo@,
    {
        let child_handled = self.foo.input(input);
        settle_record(&mut self.selected, 1, child_handled, input.key)
    }

    /// The record that the fields stand for, or `None` while one of them does
    /// not read as a value.
    pub fn build(&self) -> (value: Option<Whatever>)
        ensures
            match value {
                Some(v) => self.spec_build() == Some(v@),
                None => self.spec_build() is None,
            },
    {
        match self.foo.value() {
            Some(foo) => Some(Whatever { foo }),
            None => None,
        }
    }

    /// Lays the form out in `area`: one row for each field, from top to
    /// bottom. A row is highlighted if the form has the focus and the row's
    /// field is the selected one.
    pub fn layout(&self, area: Rect, focused: bool) -> (plan: Vec<Paint<'_>>)
        ensures
            marks_of(plan@) == self.marks(focused),
            self.placed(area, areas_of(plan@)),
            plan@.len() == 2,
            plan_within(plan@, area),
    {
        let mut heights: Vec<u16> = Vec::new();
        heights.push(1);
        assert(heights@ =~= self.row_heights());
        let rows = rows_of(area, &heights);
        let plan = scalar_row(rows[0], "foo", focused && self.selected == 0, &self.foo.input);
        proof {
            lemma_plan_within_part(plan@, rows@[0], area);
            assert(divides(Direction::Vertical, lengths(self.row_heights()), area, rows@));
        }
        plan
    }

    /// Whether `areas` is where the form's paints go as a nested field in the
    /// rows `rows`: its label in the first line of `rows`, and the form in
    /// what is below it, behind an indent of four cells.
    pub open spec fn placed_nested(&self, rows: Rect, areas: Seq<Rect>) -> bool {
        exists|inner: Rect|
            {
                &&& areas.len() >= 1
                &&& #[trigger] headed(rows, 4, areas[0], inner)
                &&& self.placed(inner, areas.skip(1))
            }
    }

    /// Lays the form out as the nested field `name` of a record, in the rows
    /// `rows`: the label in the first line, and the form below it, behind an
    /// indent of four cells. The label is highlighted exactly if the form has
    /// the focus. Nothing is laid out beyond `rows`.
    pub fn layout_nested(&self, rows: Rect, name: &str, focused: bool) -> (plan: Vec<Paint<'_>>)
        ensures
            marks_of(plan@) == nested_row_marks(name@, self.marks(focused), focused),
            self.placed_nested(rows, areas_of(plan@)),
            plan@.len() == 1 + 2,
            plan_within(plan@, rows),
    {
        let (label, inner) = nested_head(rows, name, focused);
        let mut plan = plan_of(label);
        assert(plan_within(plan@, rows));
        let form = self.layout(inner, focused);
        let ghost form_areas = areas_of(form@);
        append_plan(&mut plan, form, inner, rows);
        proof {
            assert(areas_of(plan@).skip(1) =~= form_areas);
            assert(headed(rows, 4, areas_of(plan@)[0], inner));
        }
        plan
    }

    /// Draws the form into `area` of `buffer`: it lays the form out in `area`
    /// and paints that plan, paint by paint. The cells afterwards are what
    /// painting makes of them for paints that show what the form shows and
    /// go where the form places them. The buffer keeps its bounds, and every
    /// cell outside `area` keeps what it holds.
    pub fn render(&self, area: Rect, buffer: &mut Buffer, focused: bool)
        ensures
            buffer_bounds(*final(buffer)) == buffer_bounds(*old(buffer)),
            same_outside(*old(buffer), *final(buffer), area),
            exists|paints: Seq<PaintView>|
                {
                    &&& #[trigger] painted(
                        paints,
                        buffer_bounds(*old(buffer)),
                        buffer_cells(*old(buffer)),
                        buffer_cells(*final(buffer)),
                    )
                    &&& marks_in(paints) == self.marks(focused)
                    &&& self.placed(area, areas_in(paints))
                },
    {
        let plan = self.layout(area, focused);
        paint_in(&plan, buffer, area);
        proof {
            lemma_shown(plan@);
        }
    }
}

impl Whatever {
    /// A fresh form for a `Whatever`.
    pub fn form() -> (form: WhateverForm)
        ensures
            form@ == fresh_whatever_form(),
            form.wf(),
    {
        WhateverForm::new()
    }
}

/// A form of one field builds a value exactly if that field stands for one.
pub proof fn lemma_whatever_build_complete(form: WhateverForm)
    ensures
        form.spec_build() is Some <==> form.foo.spec_value() is Some,
{
}

/// In a drawing of the form, the label of its row is highlighted exactly if
/// the form has the focus and the row is the selected one.
pub proof fn lemma_whatever_one_row_highlighted(form: WhateverForm, focused: bool, row: int)
    requires
        0 <= row < 1,
    ensures
        form.row_marks(row, focused)[0] matches Mark::Label { fg, .. } && (fg is Some <==> focused
            && form.selected == row),
{
}

/// What the form shows is fixed by its state and by whether it has the
/// focus: drawn twice in one state, it shows the same both times.
pub proof fn lemma_whatever_marks_follow_state(a: WhateverForm, b: WhateverForm, focused: bool)
    requires
        a@ == b@,
    ensures
        a.marks(focused) == b.marks(focused),
{
}

} // verus!
