//! A user account, and its form: text fields, a nested union and a nested
//! record side by side.

use vstd::prelude::*;
use crate::address::{
    fresh_address_form,
    lemma_address_marks_follow_state,
    Address,
    AddressForm,
    AddressFormView,
    AddressView,
};
use crate::area::{Direction, Rect};
use crate::email::Email;
use crate::filtext::{fresh_field, FieldView, Filtext};
use crate::focus::{record_moved, record_step, settle_record};
use crate::key::{Input, Key};
use crate::paint::{
    append_plan,
    areas_of,
    columns,
    divides,
    lengths,
    lemma_plan_within_part,
    lemma_shown,
    marks_in,
    areas_in,
    paint_in,
    painted,
    PaintView,
    marks_of,
    nested_head,
    nested_row_marks,
    paint,
    plan_of,
    plan_within,
    rows_of,
    scalar_row,
    scalar_row_marks,
    Mark,
    Paint,
};
use crate::role::{
    fresh_role_form,
    lemma_role_marks_follow_state,
    Role,
    RoleForm,
    RoleFormView,
    RoleView,
};
use crate::surface::{buffer_bounds, buffer_cells, same_outside};
use crate::whatever::WhateverView;
use ratatui::buffer::Buffer;

verus! {

/// A user account.
#[derive(Debug, PartialEq)]
pub struct User {
    pub name: String,
    pub age: usize,
    pub role: Role,
    pub email: Email,
    pub address: Address,
}

/// A `User` in contracts.
pub struct UserView {
    pub name: Seq<char>,
    pub age: usize,
    pub role: RoleView,
    pub email: Seq<char>,
    pub address: AddressView,
}

impl View for User {
    type V = UserView;

    open spec fn view(&self) -> UserView {
        UserView {
            name: self.name@,
            age: self.age,
            role: self.role@,
            email: self.email@,
            address: self.address@,
        }
    }
}

impl Default for User {
    fn default() -> (value: User)
        ensures
            value@ == (UserView {
                name: Seq::empty(),
                age: 0,
                role: RoleView::User,
                email: Seq::empty(),
                address: AddressView {
                    whatever: WhateverView { foo: Seq::empty() },
                    street: Seq::empty(),
                    number: 0,
                },
            }),
    {
        User {
            name: String::new(),
            age: 0,
            role: Role::default(),
            email: Email::default(),
            address: Address::default(),
        }
    }
}

/// The form of a `User`: three text fields and two nested forms.
pub struct UserForm {
    pub name: Filtext<String>,
    pub age: Filtext<usize>,
    pub role: RoleForm,
    pub email: Filtext<Email>,
    pub address: AddressForm,
    /// The index of the field that has the focus.
    pub selected: usize,
}

/// The state of a `UserForm`.
pub struct UserFormView {
    pub name: FieldView,
    pub age: FieldView,
    pub role: RoleFormView,
    pub email: FieldView,
    pub address: AddressFormView,
    pub selected: usize,
}

impl View for UserForm {
    type V = UserFormView;

    open spec fn view(&self) -> UserFormView {
        UserFormView {
            name: self.name@,
            age: self.age@,
            role: self.role@,
            email: self.email@,
            address: self.address@,
            selected: self.selected,
        }
    }
}

impl UserFormView {
    /// Whether the field that has the focus uses every character typed: there
    /// is such a field, and it does not validate.
    pub open spec fn takes_typing(self) -> bool {
        ||| self.selected == 0 && !self.name.validate
        ||| self.selected == 1 && !self.age.validate
        ||| self.selected == 2 && self.role.takes_typing()
        ||| self.selected == 3 && !self.email.validate
        ||| self.selected == 4 && self.address.takes_typing()
    }

    /// Which fields take back unreadable edits, field by field in order.
    pub open spec fn validation(self) -> Seq<bool> {
        seq![self.name.validate, self.age.validate] + self.role.validation() + seq![
            self.email.validate,
        ] + self.address.validation()
    }

    /// The state after an arrow key, and whether the key was used: a nested
    /// form sees it first if it has the focus, then the focus itself.
    pub open spec fn arrowed(self, key: Key) -> (UserFormView, bool) {
        if self.selected == 2 && self.role.arrowed(key).1 {
            (UserFormView { role: self.role.arrowed(key).0, ..self }, true)
        } else if self.selected == 4 && self.address.arrowed(key).1 {
            (UserFormView { address: self.address.arrowed(key).0, ..self }, true)
        } else {
            (
                UserFormView { selected: record_moved(self.selected, 5, key), ..self },
                record_step(self.selected, 5, key) is Some,
            )
        }
    }
}

/// The state of a `UserForm` in which nothing has been typed or selected.
pub open spec fn fresh_user_form() -> UserFormView {
    UserFormView {
        name: fresh_field::<String>(),
        age: fresh_field::<usize>(),
        role: fresh_role_form(),
        email: fresh_field::<Email>(),
        address: fresh_address_form(),
        selected: 0,
    }
}

impl UserForm {
    /// The focus is on a field of the form, and the nested forms are well
    /// formed too.
    pub open spec fn wf(&self) -> bool {
        self.selected < 5 && self.role.wf() && self.address.wf()
    }

    /// Whether every field is at rest: its cursor stands behind its text and
    /// nothing is selected.
    pub open spec fn at_rest(&self) -> bool {
        &&& self.name.at_rest()
        &&& self.age.at_rest()
        &&& self.role.at_rest()
        &&& self.email.at_rest()
        &&& self.address.at_rest()
    }

    /// Whether a selection is under way in the field that has the focus.
    pub open spec fn focus_selecting(&self) -> bool {
        ||| self.selected == 0 && self.name.selecting()
        ||| self.selected == 1 && self.age.selecting()
        ||| self.selected == 2 && self.role.focus_selecting()
        ||| self.selected == 3 && self.email.selecting()
        ||| self.selected == 4 && self.address.focus_selecting()
    }

    /// Whether the field that has the focus takes the character that `input`
    /// types.
    pub open spec fn takes(&self, input: Input) -> bool {
        ||| self.selected == 0 && self.name.takes(input)
        ||| self.selected == 1 && self.age.takes(input)
        ||| self.selected == 2 && self.role.takes(input)
        ||| self.selected == 3 && self.email.takes(input)
        ||| self.selected == 4 && self.address.takes(input)
    }

    /// Whether the form is `before` with the character of `input` typed into
    /// the field that has the focus, and nothing else changed.
    pub open spec fn typed_from(&self, before: Self, input: Input) -> bool {
        &&& self.selected == before.selected
        &&& if before.selected == 0 {
            self.name.typed_from(before.name, input)
        } else {
            self.name == before.name
        }
        &&& if before.selected == 1 {
            self.age.typed_from(before.age, input)
        } else {
            self.age == before.age
        }
        &&& if before.selected == 2 {
            self.role.typed_from(before.role, input)
        } else {
            self.role == before.role
        }
        &&& if before.selected == 3 {
            self.email.typed_from(before.email, input)
        } else {
            self.email == before.email
        }
        &&& if before.selected == 4 {
            self.address.typed_from(before.address, input)
        } else {
            self.address == before.address
        }
    }

    /// The number of lines the form asks for: those of each nested form, one
    /// for each text field, and one more.
    pub open spec fn spec_height(&self) -> nat {
        1 + 1 + self.role.spec_height() + 1 + self.address.spec_height() + 1
    }

    /// The user that the form's fields stand for, if each of them stands for
    /// a value.
    pub open spec fn spec_build(&self) -> Option<UserView> {
        match (
            self.name.spec_value(),
            self.age.spec_value(),
            self.role.spec_build(),
            self.email.spec_value(),
            self.address.spec_build(),
        ) {
            (Some(name), Some(age), Some(role), Some(email), Some(address)) => Some(
                UserView { name, age, role, email, address },
            ),
            _ => None,
        }
    }

    /// What row `row` of the form shows.
    pub open spec fn row_marks(&self, row: int, focused: bool) -> Seq<Mark> {
        if row == 0 {
            scalar_row_marks("name"@, self.name.lines(), focused && self.selected == 0)
        } else if row == 1 {
            scalar_row_marks("age"@, self.age.lines(), focused && self.selected == 1)
        } else if row == 2 {
            nested_row_marks(
                "role"@,
                self.role.marks(focused && self.selected == 2),
                focused && self.selected == 2,
            )
        } else if row == 3 {
            scalar_row_marks("email"@, self.email.lines(), focused && self.selected == 3)
        } else if row == 4 {
            nested_row_marks(
                "address"@,
                self.address.marks(focused && self.selected == 4),
                focused && self.selected == 4,
            )
        } else {
            Seq::empty()
        }
    }

    /// The heights the form asks for its rows: one line for each text field,
    /// and what each nested form asks.
    pub open spec fn row_heights(&self) -> Seq<u16> {
        seq![
            1u16,
            1u16,
            self.role.spec_height() as u16,
            1u16,
            self.address.spec_height() as u16,
        ]
    }

    /// Whether `areas` is where the form's paints go in `area`: `area` is
    /// divided from top to bottom into rows of the heights the form asks;
    /// each nested form goes into its row, and each of the other rows is
    /// divided into the two columns of a scalar field.
    pub open spec fn placed(&self, area: Rect, areas: Seq<Rect>) -> bool {
        let role = (self.role.spec_count() + 1) as int;
        exists|rows: Seq<Rect>|
            {
                &&& #[trigger] divides(Direction::Vertical, lengths(self.row_heights()), area, rows)
                &&& rows.len() == 5
                &&& areas.len() == 14 + role
                &&& columns(rows[0], areas[0], areas[1])
                &&& columns(rows[1], areas[2], areas[3])
                &&& self.role.placed_nested(rows[2], areas.subrange(4, 4 + role))
                &&& columns(rows[3], areas[4 + role], areas[5 + role])
                &&& self.address.placed_nested(rows[4], areas.subrange(6 + role, 14 + role))
            }
    }

    /// What the form shows: its rows from top to bottom.
    pub open spec fn marks(&self, focused: bool) -> Seq<Mark> {
        self.row_marks(0, focused) + self.row_marks(1, focused) + self.row_marks(2, focused)
            + self.row_marks(3, focused) + self.row_marks(4, focused)
    }

    /// A form in which nothing has been typed or selected, with the focus on
    /// the first field.
    pub fn new() -> (form: Self)
        ensures
            form@ == fresh_user_form(),
            form.wf(),
            form.at_rest(),
    {
        UserForm {
            name: Filtext::new(),
            age: Filtext::new(),
            role: RoleForm::new(),
            email: Filtext::new(),
            address: AddressForm::new(),
            selected: 0,
        }
    }

    /// The number of lines the form asks for.
    pub fn form_height(&self) -> (height: u16)
        ensures
            height == self.spec_height(),
    {
        0 + 1 + 1 + self.role.form_height() + 1 + self.address.form_height() + 1
    }

    /// Hands a key event to the form: first to the field that has the focus
    /// and, if that field does not use it, to the focus itself. The result
    /// says whether the key was used. Only the field that has the focus can
    /// change. A character that this field takes goes into its text at the
    /// cursor and is used. While nothing is selected in it, a key that
    /// nothing used changes nothing. A key that nothing used moves no focus; a key that moved the
    /// focus changed no field. What an arrow key does is settled by the state
    /// alone. No key changes which fields validate, and a character typed
    /// without Ctrl or Alt is used whenever the field that has the focus does
    /// not validate.
    pub fn input(&mut self, input: Input) -> (handled: bool)
        requires
            old(self).wf(),
        ensures
            final(self).wf(),
            final(self)@.validation() == old(self)@.validation(),
            input.is_typed() && old(self)@.takes_typing() ==> handled && final(self).selected
                == old(self).selected,
            input.key.is_arrow() ==> (final(self)@, handled) == old(self)@.arrowed(input.key),
            old(self).selected != 0 ==> final(self).name == old(self).name,
            old(self).selected != 1 ==> final(self).age == old(self).age,
            old(self).selected != 2 ==> final(self).role == old(self).role,
            old(self).selected != 3 ==> final(self).email == old(self).email,
            old(self).selected != 4 ==> final(self).address == old(self).address,
            old(self).takes(input) ==> handled && final(self).typed_from(*old(self), input),
            !handled && !old(self).focus_selecting() ==> final(self)@ == old(self)@,
            !handled ==> final(self).selected == old(self).selected && record_step(
                old(self).selected,
                5,
                input.key,
            ) is None,
            final(self).selected != old(self).selected ==> handled && final(self).selected
                == record_moved(old(self).selected, 5, input.key) && final(self)@ == (
                UserFormView { selected: final(self).selected, ..old(self)@ }),
    {
        let child_handled = if self.selected == 0 {
            self.name.input(input)
        } else if self.selected == 1 {
            self.age.input(input)
        } else if self.selected == 2 {
            self.role.input(input)
        } else if self.selected == 3 {
            self.email.input(input)
        } else {
            self.address.input(input)
        };
        settle_record(&mut self.selected, 5, child_handled, input.key)
    }

    /// The user that the fields stand for, or `None` while one of them does
    /// not read as a value.
    pub fn build(&self) -> (value: Option<User>)
        ensures
            match value {
                Some(v) => self.spec_build() == Some(v@),
                None => self.spec_build() is None,
            },
    {
        let name = match self.name.value() {
            Some(name) => name,
            None => return None,
        };
        let age = match self.age.value() {
            Some(age) => age,
            None => return None,
        };
        let role = match self.role.build() {
            Some(role) => role,
            None => return None,
        };
        let email = match self.email.value() {
            Some(email) => email,
            None => return None,
        };
        let address = match self.address.build() {
            Some(address) => address,
            None => return None,
        };
        Some(User { name, age, role, email, address })
    }

    /// Lays the form out in `area`: one row for each field, from top to
    /// bottom, as high as the field asks; a text field with a label column of
    /// twelve cells, a nested form under its label behind an indent of four.
    /// A row is highlighted if the form has the focus and the row's field is
    /// the selected one, and a nested form has the focus exactly if its row
    /// is highlighted. Nothing is laid out beyond `area`.
    pub fn layout(&self, area: Rect, focused: bool) -> (plan: Vec<Paint<'_>>)
        ensures
            marks_of(plan@) == self.marks(focused),
            self.placed(area, areas_of(plan@)),
            plan@.len() == 15 + self.role.spec_count(),
            plan_within(plan@, area),
    {
        let mut heights: Vec<u16> = Vec::new();
        heights.push(1);
        heights.push(1);
        heights.push(self.role.form_height());
        heights.push(1);
        heights.push(self.address.form_height());
        assert(heights@ =~= self.row_heights());
        let rows = rows_of(area, &heights);
        let ghost count = (self.role.spec_count() + 1) as int;

        let mut plan = scalar_row(rows[0], "name", focused && self.selected == 0, &self.name.input);
        proof {
            lemma_plan_within_part(plan@, rows@[0], area);
        }
        let age = scalar_row(rows[1], "age", focused && self.selected == 1, &self.age.input);
        append_plan(&mut plan, age, rows[1], area);
        let role = self.role.layout_nested(rows[2], "role", focused && self.selected == 2);
        let ghost role_areas = areas_of(role@);
        append_plan(&mut plan, role, rows[2], area);
        assert(areas_of(plan@).subrange(4, 4 + count) =~= role_areas);
        let email = scalar_row(rows[3], "email", focused && self.selected == 3, &self.email.input);
        append_plan(&mut plan, email, rows[3], area);
        let address = self.address.layout_nested(
            rows[4],
            "address",
            focused && self.selected == 4,
        );
        let ghost address_areas = areas_of(address@);
        append_plan(&mut plan, address, rows[4], area);
        proof {
            assert(areas_of(plan@).subrange(4, 4 + count) =~= role_areas);
            assert(areas_of(plan@).subrange(6 + count, 14 + count) =~= address_areas);
            assert(divides(Direction::Vertical, lengths(self.row_heights()), area, rows@));
        }
        plan
    }

    /// Draws the form into `area` of `buffer`: it lays the form out in `area`
    /// and paints that plan, paint by paint. The cells afterwards are what
    /// painting makes of them for paints that show what the form shows and
    /// go where the form places them. The buffer keeps its bounds, and every
    /// cell outside `area` keeps what it holds.
    pub fn render(&self, area: Rect, buffer: &mut Buffer, focused: bool)
        ensures
            buffer_bounds(*final(buffer)) == buffer_bounds(*old(buffer)),
            same_outside(*old(buffer), *final(buffer), area),
            exists|paints: Seq<PaintView>|
                {
                    &&& #[trigger] painted(
                        paints,
                        buffer_bounds(*old(buffer)),
                        buffer_cells(*old(buffer)),
                        buffer_cells(*final(buffer)),
                    )
                    &&& marks_in(paints) == self.marks(focused)
                    &&& self.placed(area, areas_in(paints))
                },
    {
        let plan = self.layout(area, focused);
        paint_in(&plan, buffer, area);
        proof {
            lemma_shown(plan@);
        }
    }
}

impl User {
    /// A fresh form for a `User`.
    pub fn form() -> (form: UserForm)
        ensures
            form@ == fresh_user_form(),
            form.wf(),
    {
        UserForm::new()
    }
}

/// A user form builds a value exactly if each of its fields stands for one.
pub proof fn lemma_user_build_complete(form: UserForm)
    ensures
        form.spec_build() is Some <==> form.name.spec_value() is Some && form.age.spec_value()
            is Some && form.role.spec_build() is Some && form.email.spec_value() is Some
            && form.address.spec_build() is Some,
{
}

/// In a drawing of a user form, the label of a row is highlighted exactly if
/// the form has the focus and the row is the selected one: so at most one row
/// is, and none in a form without the focus.
pub proof fn lemma_user_one_row_highlighted(form: UserForm, focused: bool, row: int)
    requires
        0 <= row < 5,
    ensures
        form.row_marks(row, focused)[0] matches Mark::Label { fg, .. } && (fg is Some <==> focused
            && form.selected == row),
{
}

/// What a user form shows is fixed by its state and by whether it has the
/// focus: drawn twice in one state, it shows the same both times.
pub proof fn lemma_user_marks_follow_state(a: UserForm, b: UserForm, focused: bool)
    requires
        a@ == b@,
    ensures
        a.marks(focused) == b.marks(focused),
{
    lemma_role_marks_follow_state(a.role, b.role, focused && a.selected == 2);
    lemma_address_marks_follow_state(a.address, b.address, focused && a.selected == 4);
}

} // verus!
