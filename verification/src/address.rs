//! A postal address, and its form.

use vstd::prelude::*;
use crate::area::{Direction, Rect};
use crate::filtext::{fresh_field, FieldView, Filtext};
use crate::focus::{record_moved, record_step, settle_record};
use crate::key::{Input, Key};
use crate::paint::{
    append_plan,
    areas_of,
    columns,
    divides,
    headed,
    lemma_plan_within_part,
    lengths,
    lemma_shown,
    marks_in,
    areas_in,
    paint_in,
    painted,
    PaintView,
    marks_of,
    nested_head,
    nested_row_marks,
    paint,
    plan_of,
    plan_within,
    rows_of,
    scalar_row,
    scalar_row_marks,
    Mark,
    Paint,
};
use crate::surface::{buffer_bounds, buffer_cells, same_outside};
use crate::whatever::{
    fresh_whatever_form,
    lemma_whatever_marks_follow_state,
    Whatever,
    WhateverForm,
    WhateverFormView,
    WhateverView,
};
use ratatui::buffer::Buffer;

verus! {

/// A postal address.
#[derive(Debug, PartialEq)]
pub struct Address {
    pub whatever: Whatever,
    pub street: String,
    pub number: usize,
}

/// An `Address` in contracts.
pub struct AddressView {
    pub whatever: WhateverView,
    pub street: Seq<char>,
    pub number: usize,
}

impl View for Address {
    type V = AddressView;

    open spec fn view(&self) -> AddressView {
        AddressView { whatever: self.whatever@, street: self.street@, number: self.number }
    }
}

impl Default for Address {
    fn default() -> (value: Address)
        ensures
            value@ == (AddressView {
                whatever: WhateverView { foo: Seq::empty() },
                street: Seq::empty(),
                number: 0,
            }),
    {
        Address { whatever: Whatever::default(), street: String::new(), number: 0 }
    }
}

/// The form of an `Address`: a nested form and two text fields.
pub struct AddressForm {
    pub whatever: WhateverForm,
    pub street: Filtext<String>,
    pub number: Filtext<usize>,
    /// The index of the field that has the focus.
    pub selected: usize,
}

/// The state of an `AddressForm`.
pub struct AddressFormView {
    pub whatever: WhateverFormView,
    pub street: FieldView,
    pub number: FieldView,
    pub selected: usize,
}

impl View for AddressForm {
    type V = AddressFormView;

    open spec fn view(&self) -> AddressFormView {
        AddressFormView {
            whatever: self.whatever@,
            street: self.street@,
            number: self.number@,
            selected: self.selected,
        }
    }
}

impl AddressFormView {
    /// Whether the field that has the focus uses every character typed: there
    /// is such a field, and it does not validate.
    pub open spec fn takes_typing(self) -> bool {
        ||| self.selected == 0 && self.whatever.takes_typing()
        ||| self.selected == 1 && !self.street.validate
        ||| self.selected == 2 && !self.number.validate
    }

    /// Which fields take back unreadable edits, field by field in order.
    pub open spec fn validation(self) -> Seq<bool> {
        self.whatever.validation() + seq![self.street.validate, self.number.validate]
    }

    /// The state after an arrow key, and whether the key was used: the nested
    /// form sees it first if it has the focus, then the focus itself.
    pub open spec fn arrowed(self, key: Key) -> (AddressFormView, bool) {
        if self.selected == 0 && self.whatever.arrowed(key).1 {
            (AddressFormView { whatever: self.whatever.arrowed(key).0, ..self }, true)
        } else {
            (
                AddressFormView { selected: record_moved(self.selected, 3, key), ..self },
                record_step(self.selected, 3, key) is Some,
            )
        }
    }
}

/// The state of an `AddressForm` in which nothing has been typed.
pub open spec fn fresh_address_form() -> AddressFormView {
    AddressFormView {
        whatever: fresh_whatever_form(),
        street: fresh_field::<String>(),
        number: fresh_field::<usize>(),
        selected: 0,
    }
}

impl AddressForm {
    /// The focus is on a field of the form, and so is that of the nested
    /// form.
    pub open spec fn wf(&self) -> bool {
        self.selected < 3 && self.whatever.wf()
    }

    /// Whether every field is at rest: its cursor stands behind its text and
    /// nothing is selected.
    pub open spec fn at_rest(&self) -> bool {
        self.whatever.at_rest() && self.street.at_rest() && self.number.at_rest()
    }

    /// Whether a selection is under way in the field that has the focus.
    pub open spec fn focus_selecting(&self) -> bool {
        ||| self.selected == 0 && self.whatever.focus_selecting()
        ||| self.selected == 1 && self.street.selecting()
        ||| self.selected == 2 && self.number.selecting()
    }

    /// Whether the field that has the focus takes the character that `input`
    /// types.
    pub open spec fn takes(&self, input: Input) -> bool {
        ||| self.selected == 0 && self.whatever.takes(input)
        ||| self.selected == 1 && self.street.takes(input)
        ||| self.selected == 2 && self.number.takes(input)
    }

    /// Whether the form is `before` with the character of `input` typed into
    /// the field that has the focus, and nothing else changed.
    pub open spec fn typed_from(&self, before: Self, input: Input) -> bool {
        &&& self.selected == before.selected
        &&& if before.selected == 0 {
            self.whatever.typed_from(before.whatever, input)
        } else {
            self.whatever == before.whatever
        }
        &&& if before.selected == 1 {
            self.street.typed_from(before.street, input)
        } else {
            self.street == before.street
        }
        &&& if before.selected == 2 {
            self.number.typed_from(before.number, input)
        } else {
            self.number == before.number
        }
    }

    /// The number of lines the form asks for: those of the nested form, one
    /// for each text field, and one more.
    pub open spec fn spec_height(&self) -> nat {
        self.whatever.spec_height() + 1 + 1 + 1
    }

    /// The address that the form's fields stand for, if each of them stands
    /// for a value.
    pub open spec fn spec_build(&self) -> Option<AddressView> {
        match (self.whatever.spec_build(), self.street.spec_value(), self.number.spec_value()) {
            (Some(whatever), Some(street), Some(number)) => Some(
                AddressView { whatever, street, number },
            ),
            _ => None,
        }
    }

    /// What row `row` of the form shows.
    pub open spec fn row_marks(&self, row: int, focused: bool) -> Seq<Mark> {
        if row == 0 {
            nested_row_marks(
                "whatever"@,
                self.whatever.marks(focused && self.selected == 0),
                focused && self.selected == 0,
            )
        } else if row == 1 {
            scalar_row_marks("street"@, self.street.lines(), focused && self.selected == 1)
        } else if row == 2 {
            scalar_row_marks("number"@, self.number.lines(), focused && self.selected == 2)
        } else {
            Seq::empty()
        }
    }

    /// The heights the form asks for its rows: what the nested form asks,
    /// and one line for each text field.
    pub open spec fn row_heights(&self) -> Seq<u16> {
        seq![self.whatever.spec_height() as u16, 1u16, 1u16]
    }

    /// Whether `areas` is where the form's paints go in `area`: `area` is
    /// divided from top to bottom into rows of the heights the form asks;
    /// the nested form goes into the first, and each of the others is
    /// divided into the two columns of a scalar field.
    pub open spec fn placed(&self, area: Rect, areas: Seq<Rect>) -> bool {
        exists|rows: Seq<Rect>|
            {
                &&& #[trigger] divides(Direction::Vertical, lengths(self.row_heights()), area, rows)
                &&& rows.len() == 3
                &&& areas.len() == 7
                &&& self.whatever.placed_nested(rows[0], areas.subrange(0, 3))
                &&& columns(rows[1], areas[3], areas[4])
                &&& columns(rows[2], areas[5], areas[6])
            }
    }

    /// What the form shows: its rows from top to bottom.
    pub open spec fn marks(&self, focused: bool) -> Seq<Mark> {
        self.row_marks(0, focused) + self.row_marks(1, focused) + self.row_marks(2, focused)
    }

    /// A form in which nothing has been typed, with the focus on the first
    /// field.
    pub fn new() -> (form: Self)
        ensures
            form@ == fresh_address_form(),
            form.wf(),
            form.at_rest(),
    {
        AddressForm {
            whatever: WhateverForm::new(),
            street: Filtext::new(),
            number: Filtext::new(),
            selected: 0,
        }
    }

    /// The number of lines the form asks for.
    pub fn form_height(&self) -> (height: u16)
        ensures
            height == self.spec_height(),
    {
        0 + self.whatever.form_height() + 1 + 1 + 1
    }

    /// Hands a key event to the form: first to the field that has the focus
    /// and, if that field does not use it, to the focus itself. The result
    /// says whether the key was used. Only the field that has the focus can
    /// change. A character that this field takes goes into its text at the
    /// cursor and is used. While nothing is selected in it, a key that
    /// nothing used changes nothing. A key that nothing used moves no focus; a key that moved the
    /// focus changed no field. What an arrow key does is settled by the state
    /// alone. No key changes which fields validate, and a character typed
    /// without Ctrl or Alt is used whenever the field that has the focus does
    /// not validate.
    pub fn input(&mut self, input: Input) -> (handled: bool)
        requires
            old(self).wf(),
        ensures
            final(self).wf(),
            final(self)@.validation() == old(self)@.validation(),
            input.is_typed() && old(self)@.takes_typing() ==> handled && final(self).selected
                == old(self).selected,
            input.key.is_arrow() ==> (final(self)@, handled) == old(self)@.arrowed(input.key),
            old(self).selected != 0 ==> final(self).whatever == old(self).whatever,
            old(self).selected != 1 ==> final(self).street == old(self).street,
            old(self).selected != 2 ==> final(self).number == old(self).number,
            old(self).takes(input) ==> handled && final(self).typed_from(*old(self), input),
            !handled && !old(self).focus_selecting() ==> final(self)@ == old(self)@,
            !handled ==> final(self).selected == old(self).selected && record_step(
                old(self).selected,
                3,
                input.key,
            ) is None,
            final(self).selected != old(self).selected ==> handled && final(self).selected
                == record_moved(old(self).selected, 3, input.key) && final(self)@ == (
                AddressFormView { selected: final(self).selected, ..old(self)@ }),
    {
        let child_handled = if self.selected == 0 {
            self.whatever.input(input)
        } else if self.selected == 1 {
            self.street.input(input)
        } else {
            self.number.input(input)
        };
        settle_record(&mut self.selected, 3, child_handled, input.key)
    }

    /// The address that the fields stand for, or `None` while one of them
    /// does not read as a value.
    pub fn build(&self) -> (value: Option<Address>)
        ensures
            match value {
                Some(v) => self.spec_build() == Some(v@),
                None => self.spec_build() is None,
            },
    {
        let whatever = match self.whatever.build() {
            Some(whatever) => whatever,
            None => return None,
        };
        let street = match self.street.value() {
            Some(street) => street,
            None => return None,
        };
        let number = match self.number.value() {
            Some(number) => number,
            None => return None,
        };
        Some(Address { whatever, street, number })
    }

    /// Lays the form out in `area`: one row for each field, from top to
    /// bottom, as high as the field asks; a text field with a label column of
    /// twelve cells, the nested form under its label behind an indent of
    /// four. A row is highlighted if the form has the focus and the row's
    /// field is the selected one, and the nested form has the focus exactly
    /// if its row is highlighted. Nothing is laid out beyond `area`.
    pub fn layout(&self, area: Rect, focused: bool) -> (plan: Vec<Paint<'_>>)
        ensures
            marks_of(plan@) == self.marks(focused),
            self.placed(area, areas_of(plan@)),
            plan@.len() == 7,
            plan_within(plan@, area),
    {
        let mut heights: Vec<u16> = Vec::new();
        heights.push(self.whatever.form_height());
        heights.push(1);
        heights.push(1);
        assert(heights@ =~= self.row_heights());
        let rows = rows_of(area, &heights);

        let mut plan = self.whatever.layout_nested(
            rows[0],
            "whatever",
            focused && self.selected == 0,
        );
        let ghost first = areas_of(plan@);
        proof {
            lemma_plan_within_part(plan@, rows@[0], area);
        }
        let street = scalar_row(
            rows[1],
            "street",
            focused && self.selected == 1,
            &self.street.input,
        );
        append_plan(&mut plan, street, rows[1], area);
        let number = scalar_row(
            rows[2],
            "number",
            focused && self.selected == 2,
            &self.number.input,
        );
        append_plan(&mut plan, number, rows[2], area);
        proof {
            assert(areas_of(plan@).subrange(0, 3) =~= first);
            assert(divides(Direction::Vertical, lengths(self.row_heights()), area, rows@));
        }
        plan
    }

    /// Whether `areas` is where the form's paints go as a nested field in the
    /// rows `rows`: its label in the first line of `rows`, and the form in
    /// what is below it, behind an indent of four cells.
    pub open spec fn placed_nested(&self, rows: Rect, areas: Seq<Rect>) -> bool {
        exists|inner: Rect|
            {
                &&& areas.len() >= 1
                &&& #[trigger] headed(rows, 4, areas[0], inner)
                &&& self.placed(inner, areas.skip(1))
            }
    }

    /// Lays the form out as the nested field `name` of a record, in the rows
    /// `rows`: the label in the first line, and the form below it, behind an
    /// indent of four cells. The label is highlighted exactly if the form has
    /// the focus. Nothing is laid out beyond `rows`.
    pub fn layout_nested(&self, rows: Rect, name: &str, focused: bool) -> (plan: Vec<Paint<'_>>)
        ensures
            marks_of(plan@) == nested_row_marks(name@, self.marks(focused), focused),
            self.placed_nested(rows, areas_of(plan@)),
            plan@.len() == 1 + 7,
            plan_within(plan@, rows),
    {
        let (label, inner) = nested_head(rows, name, focused);
        let mut plan = plan_of(label);
        assert(plan_within(plan@, rows));
        let form = self.layout(inner, focused);
        let ghost form_areas = areas_of(form@);
        append_plan(&mut plan, form, inner, rows);
        proof {
            assert(areas_of(plan@).skip(1) =~= form_areas);
            assert(headed(rows, 4, areas_of(plan@)[0], inner));
        }
        plan
    }

    /// Draws the form into `area` of `buffer`: it lays the form out in `area`
    /// and paints that plan, paint by paint. The cells afterwards are what
    /// painting makes of them for paints that show what the form shows and
    /// go where the form places them. The buffer keeps its bounds, and every
    /// cell outside `area` keeps what it holds.
    pub fn render(&self, area: Rect, buffer: &mut Buffer, focused: bool)
        ensures
            buffer_bounds(*final(buffer)) == buffer_bounds(*old(buffer)),
            same_outside(*old(buffer), *final(buffer), area),
            exists|paints: Seq<PaintView>|
                {
                    &&& #[trigger] painted(
                        paints,
                        buffer_bounds(*old(buffer)),
                        buffer_cells(*old(buffer)),
                        buffer_cells(*final(buffer)),
                    )
                    &&& marks_in(paints) == self.marks(focused)
                    &&& self.placed(area, areas_in(paints))
                },
    {
        let plan = self.layout(area, focused);
        paint_in(&plan, buffer, area);
        proof {
            lemma_shown(plan@);
        }
    }
}

impl Address {
    /// A fresh form for an `Address`.
    pub fn form() -> (form: AddressForm)
        ensures
            form@ == fresh_address_form(),
            form.wf(),
    {
        AddressForm::new()
    }
}

/// An address form builds a value exactly if each of its fields stands for
/// one.
pub proof fn lemma_address_build_complete(form: AddressForm)
    ensures
        form.spec_build() is Some <==> form.whatever.spec_build() is Some
            && form.street.spec_value() is Some && form.number.spec_value() is Some,
{
}

/// In a drawing of an address form, the label of a row is highlighted
/// exactly if the form has the focus and the row is the selected one: so at
/// most one row is, and none in a form without the focus.
pub proof fn lemma_address_one_row_highlighted(form: AddressForm, focused: bool, row: int)
    requires
        0 <= row < 3,
    ensures
        form.row_marks(row, focused)[0] matches Mark::Label { fg, .. } && (fg is Some <==> focused
            && form.selected == row),
{
}

/// What an address form shows is fixed by its state and by whether it has
/// the focus: drawn twice in one state, it shows the same both times.
pub proof fn lemma_address_marks_follow_state(a: AddressForm, b: AddressForm, focused: bool)
    requires
        a@ == b@,
    ensures
        a.marks(focused) == b.marks(focused),
{
    lemma_whatever_marks_follow_state(a.whatever, b.whatever, focused && a.selected == 0);
}

} // verus!
