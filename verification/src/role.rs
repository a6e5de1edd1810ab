//! A tagged union with two unit variants and one record variant, and its
//! forms: one for each variant and one for the union.

use vstd::prelude::*;
use crate::area::{Direction, Rect};
use crate::filtext::{fresh_field, FieldView, Filtext};
use crate::focus::{record_moved, record_step, settle_record, settle_variant, variant_moved, variant_step};
use crate::key::{Input, Key};
use crate::paint::{
    append_plan,
    areas_of,
    columns,
    divides,
    headed,
    lengths,
    nested_head,
    nested_row_marks,
    lemma_plan_within_part,
    lemma_shown,
    marks_in,
    areas_in,
    paint_in,
    painted,
    PaintView,
    marks_of,
    paint,
    plan_of,
    plan_within,
    rows_of,
    scalar_row,
    scalar_row_marks,
    variant_head,
    variant_marks,
    Mark,
    Paint,
};
use crate::surface::{buffer_bounds, buffer_cells, same_outside};
use ratatui::buffer::Buffer;

verus! {

/// What a user may do.
#[derive(Debug, PartialEq)]
pub enum Role {
    Admin,
    Guest { name: String, cool: String, whatever: String },
    User,
}

/// A `Role` in contracts.
pub enum RoleView {
    Admin,
    Guest { name: Seq<char>, cool: Seq<char>, whatever: Seq<char> },
    User,
}

impl View for Role {
    type V = RoleView;

    open spec fn view(&self) -> RoleView {
        match self {
            Role::Admin => RoleView::Admin,
            Role::Guest { name, cool, whatever } => RoleView::Guest {
                name: name@,
                cool: cool@,
                whatever: whatever@,
            },
            Role::User => RoleView::User,
        }
    }
}

impl Default for Role {
    fn default() -> (value: Role)
        ensures
            value@ == RoleView::User,
    {
        Role::User
    }
}

/// The form of the variant `Admin`, which has no field.
pub struct RoleAdminForm {
    pub selected: usize,
}

impl RoleAdminForm {
    /// The number of lines the form asks for: one.
    pub open spec fn spec_height(&self) -> nat {
        1
    }

    /// The value the form stands for: always `Admin`.
    pub open spec fn spec_build(&self) -> Option<RoleView> {
        Some(RoleView::Admin)
    }

    /// What the form shows: nothing.
    pub open spec fn marks(&self, focused: bool) -> Seq<Mark> {
        Seq::empty()
    }

    /// A fresh form.
    pub fn new() -> (form: Self)
        ensures
            form.selected == 0,
    {
        RoleAdminForm { selected: 0 }
    }

    /// The number of lines the form asks for.
    pub fn form_height(&self) -> (height: u16)
        ensures
            height == self.spec_height(),
    {
        0 + 1
    }

    /// Hands a key event to the form. There is no field to take it, so only
    /// the focus can: the result and the focus are what `record_step` gives
    /// for a record without fields. On a fresh form no key is used.
    pub fn input(&mut self, input: Input) -> (handled: bool)
        ensures
            handled == record_step(old(self).selected, 0, input.key) is Some,
            final(self).selected == record_moved(old(self).selected, 0, input.key),
            old(self).selected == 0 ==> !handled && final(self).selected == 0,
    {
        settle_record(&mut self.selected, 0, false, input.key)
    }

    /// The value the form stands for.
    pub fn build(&self) -> (value: Option<Role>)
        ensures
            value matches Some(v) && self.spec_build() == Some(v@),
    {
        Some(Role::Admin)
    }

    /// Lays the form out in `area`: there is nothing to draw, and the plan is
    /// empty.
    pub fn layout(&self, area: Rect, focused: bool) -> (plan: Vec<Paint<'_>>)
        ensures
            plan@.len() == 0,
            marks_of(plan@) == self.marks(focused),
            plan_within(plan@, area),
    {
        let plan: Vec<Paint<'_>> = Vec::new();
        assert(marks_of(plan@) =~= self.marks(focused));
        plan
    }

    /// Draws the form into `area` of `buffer`: there is nothing to draw, and
    /// the buffer stays as it is.
    pub fn render(&self, area: Rect, buffer: &mut Buffer, focused: bool)
        ensures
            *final(buffer) == *old(buffer),
    {
        let plan = self.layout(area, focused);
        paint(&plan, buffer);
    }
}

/// The form of the variant `User`, which has no field.
pub struct RoleUserForm {
    pub selected: usize,
}

impl RoleUserForm {
    /// The number of lines the form asks for: one.
    pub open spec fn spec_height(&self) -> nat {
        1
    }

    /// The value the form stands for: always `User`.
    pub open spec fn spec_build(&self) -> Option<RoleView> {
        Some(RoleView::User)
    }

    /// What the form shows: nothing.
    pub open spec fn marks(&self, focused: bool) -> Seq<Mark> {
        Seq::empty()
    }

    /// A fresh form.
    pub fn new() -> (form: Self)
        ensures
            form.selected == 0,
    {
        RoleUserForm { selected: 0 }
    }

    /// The number of lines the form asks for.
    pub fn form_height(&self) -> (height: u16)
        ensures
            height == self.spec_height(),
    {
        0 + 1
    }

    /// Hands a key event to the form. There is no field to take it, so only
    /// the focus can: the result and the focus are what `record_step` gives
    /// for a record without fields. On a fresh form no key is used.
    pub fn input(&mut self, input: Input) -> (handled: bool)
        ensures
            handled == record_step(old(self).selected, 0, input.key) is Some,
            final(self).selected == record_moved(old(self).selected, 0, input.key),
            old(self).selected == 0 ==> !handled && final(self).selected == 0,
    {
        settle_record(&mut self.selected, 0, false, input.key)
    }

    /// The value the form stands for.
    pub fn build(&self) -> (value: Option<Role>)
        ensures
            value matches Some(v) && self.spec_build() == Some(v@),
    {
        Some(Role::User)
    }

    /// Lays the form out in `area`: there is nothing to draw, and the plan is
    /// empty.
    pub fn layout(&self, area: Rect, focused: bool) -> (plan: Vec<Paint<'_>>)
        ensures
            plan@.len() == 0,
            marks_of(plan@) == self.marks(focused),
            plan_within(plan@, area),
    {
        let plan: Vec<Paint<'_>> = Vec::new();
        assert(marks_of(plan@) =~= self.marks(focused));
        plan
    }

    /// Draws the form into `area` of `buffer`: there is nothing to draw, and
    /// the buffer stays as it is.
    pub fn render(&self, area: Rect, buffer: &mut Buffer, focused: bool)
        ensures
            *final(buffer) == *old(buffer),
    {
        let plan = self.layout(area, focused);
        paint(&plan, buffer);
    }
}

/// The form of the variant `Guest`: three fields of free text.
pub struct RoleGuestForm {
    pub name: Filtext<String>,
    pub cool: Filtext<String>,
    pub whatever: Filtext<String>,
    /// The index of the field that has the focus.
    pub selected: usize,
}

/// The state of a `RoleGuestForm`.
pub struct RoleGuestFormView {
    pub name: FieldView,
    pub cool: FieldView,
    pub whatever: FieldView,
    pub selected: usize,
}

impl View for RoleGuestForm {
    type V = RoleGuestFormView;

    open spec fn view(&self) -> RoleGuestFormView {
        RoleGuestFormView {
            name: self.name@,
            cool: self.cool@,
            whatever: self.whatever@,
            selected: self.selected,
        }
    }
}

impl RoleGuestFormView {
    /// Whether the field that has the focus uses every character typed: there
    /// is such a field, and it does not validate.
    pub open spec fn takes_typing(self) -> bool {
        ||| self.selected == 0 && !self.name.validate
        ||| self.selected == 1 && !self.cool.validate
        ||| self.selected == 2 && !self.whatever.validate
    }

    /// Which fields take back unreadable edits, field by field in order.
    pub open spec fn validation(self) -> Seq<bool> {
        seq![self.name.validate, self.cool.validate, self.whatever.validate]
    }

    /// The state after an arrow key, and whether the key was used: the text
    /// fields leave it to the focus.
    pub open spec fn arrowed(self, key: Key) -> (RoleGuestFormView, bool) {
        (
            RoleGuestFormView { selected: record_moved(self.selected, 3, key), ..self },
            record_step(self.selected, 3, key) is Some,
        )
    }
}

/// The state of a `RoleGuestForm` in which nothing has been typed.
pub open spec fn fresh_guest_form() -> RoleGuestFormView {
    RoleGuestFormView {
        name: fresh_field::<String>(),
        cool: fresh_field::<String>(),
        whatever: fresh_field::<String>(),
        selected: 0,
    }
}

impl RoleGuestForm {
    /// The focus is on a field of the form.
    pub open spec fn wf(&self) -> bool {
        self.selected < 3
    }

    /// Whether every field is at rest: its cursor stands behind its text and
    /// nothing is selected.
    pub open spec fn at_rest(&self) -> bool {
        self.name.at_rest() && self.cool.at_rest() && self.whatever.at_rest()
    }

    /// Whether a selection is under way in the field that has the focus.
    pub open spec fn focus_selecting(&self) -> bool {
        ||| self.selected == 0 && self.name.selecting()
        ||| self.selected == 1 && self.cool.selecting()
        ||| self.selected == 2 && self.whatever.selecting()
    }

    /// Whether the field that has the focus takes the character that `input`
    /// types.
    pub open spec fn takes(&self, input: Input) -> bool {
        ||| self.selected == 0 && self.name.takes(input)
        ||| self.selected == 1 && self.cool.takes(input)
        ||| self.selected == 2 && self.whatever.takes(input)
    }

    /// Whether the form is `before` with the character of `input` typed into
    /// the field that has the focus, and nothing else changed.
    pub open spec fn typed_from(&self, before: Self, input: Input) -> bool {
        &&& self.selected == before.selected
        &&& if before.selected == 0 {
            self.name.typed_from(before.name, input)
        } else {
            self.name == before.name
        }
        &&& if before.selected == 1 {
            self.cool.typed_from(before.cool, input)
        } else {
            self.cool == before.cool
        }
        &&& if before.selected == 2 {
            self.whatever.typed_from(before.whatever, input)
        } else {
            self.whatever == before.whatever
        }
    }

    /// The number of lines the form asks for: one for each field, and one
    /// more.
    pub open spec fn spec_height(&self) -> nat {
        1 + 1 + 1 + 1
    }

    /// The value that the form's fields stand for, if each of them stands for
    /// a value.
    pub open spec fn spec_build(&self) -> Option<RoleView> {
        match (self.name.spec_value(), self.cool.spec_value(), self.whatever.spec_value()) {
            (Some(name), Some(cool), Some(whatever)) => Some(
                RoleView::Guest { name, cool, whatever },
            ),
            _ => None,
        }
    }

    /// What row `row` of the form shows.
    pub open spec fn row_marks(&self, row: int, focused: bool) -> Seq<Mark> {
        if row == 0 {
            scalar_row_marks("name"@, self.name.lines(), focused && self.selected == 0)
        } else if row == 1 {
            scalar_row_marks("cool"@, self.cool.lines(), focused && self.selected == 1)
        } else if row == 2 {
            scalar_row_marks("whatever"@, self.whatever.lines(), focused && self.selected == 2)
        } else {
            Seq::empty()
        }
    }

    /// The heights the form asks for its rows: one line for each field.
    pub open spec fn row_heights(&self) -> Seq<u16> {
        seq![1u16, 1u16, 1u16]
    }

    /// Whether `areas` is where the form's paints go in `area`: `area` is
    /// divided from top to bottom into rows of the heights the form asks,
    /// and each row into the two columns of a scalar field.
    pub open spec fn placed(&self, area: Rect, areas: Seq<Rect>) -> bool {
        exists|rows: Seq<Rect>|
            {
                &&& #[trigger] divides(
                    Direction::Vertical,
                    lengths(self.row_heights()),
                    area,
                    rows,
                )
                &&& rows.len() == 3
                &&& areas.len() == 6
                &&& columns(rows[0], areas[0], areas[1])
                &&& columns(rows[1], areas[2], areas[3])
                &&& columns(rows[2], areas[4], areas[5])
            }
    }

    /// What the form shows: its rows from top to bottom.
    pub open spec fn marks(&self, focused: bool) -> Seq<Mark> {
        self.row_marks(0, focused) + self.row_marks(1, focused) + self.row_marks(2, focused)
    }

    /// A form in which nothing has been typed, with the focus on the first
    /// field.
    pub fn new() -> (form: Self)
        ensures
            form@ == fresh_guest_form(),
            form.wf(),
            form.at_rest(),
    {
        RoleGuestForm {
            name: Filtext::new(),
            cool: Filtext::new(),
            whatever: Filtext::new(),
            selected: 0,
        }
    }

    /// The number of lines the form asks for.
    pub fn form_height(&self) -> (height: u16)
        ensures
            height == self.spec_height(),
    {
        0 + 1 + 1 + 1 + 1
    }

    /// Hands a key event to the form: first to the field that has the focus
    /// and, if that field does not use it, to the focus itself. The result
    /// says whether the key was used. Only the field that has the focus can
    /// change. A character that this field takes goes into its text at the
    /// cursor and is used. While nothing is selected in it, a key that
    /// nothing used changes nothing. A key that nothing used moves no focus; a key that moved the
    /// focus changed no field. What an arrow key does is settled by the state
    /// alone. No key changes which fields validate, and a character typed
    /// without Ctrl or Alt is used whenever the field that has the focus does
    /// not validate.
    pub fn input(&mut self, input: Input) -> (handled: bool)
        requires
            old(self).wf(),
        ensures
            final(self).wf(),
            final(self)@.validation() == old(self)@.validation(),
            input.is_typed() && old(self)@.takes_typing() ==> handled && final(self).selected
                == old(self).selected,
            input.key.is_arrow() ==> (final(self)@, handled) == old(self)@.arrowed(input.key),
            old(self).selected != 0 ==> final(self).name == old(self).name,
            old(self).selected != 1 ==> final(self).cool == old(self).cool,
            old(self).selected != 2 ==> final(self).whatever == old(self).whatever,
            old(self).takes(input) ==> handled && final(self).typed_from(*old(self), input),
            !handled && !old(self).focus_selecting() ==> final(self)@ == old(self)@,
            !handled ==> final(self).selected == old(self).selected && record_step(
                old(self).selected,
                3,
                input.key,
            ) is None,
            final(self).selected != old(self).selected ==> handled && final(self).selected
                == record_moved(old(self).selected, 3, input.key) && final(self)@ == (
                RoleGuestFormView { selected: final(self).selected, ..old(self)@ }),
    {
        let child_handled = if self.selected == 0 {
            self.name.input(input)
        } else if self.selected == 1 {
            self.cool.input(input)
        } else {
            self.whatever.input(input)
        };
        settle_record(&mut self.selected, 3, child_handled, input.key)
    }

    /// The value that the fields stand for, or `None` while one of them does
    /// not read as a value.
    pub fn build(&self) -> (value: Option<Role>)
        ensures
            match value {
                Some(v) => self.spec_build() == Some(v@),
                None => self.spec_build() is None,
            },
    {
        let name = match self.name.value() {
            Some(name) => name,
            None => return None,
        };
        let cool = match self.cool.value() {
            Some(cool) => cool,
            None => return None,
        };
        let whatever = match self.whatever.value() {
            Some(whatever) => whatever,
            None => return None,
        };
        Some(Role::Guest { name, cool, whatever })
    }

    /// Lays the form out in `area`: one row of one line for each field, from
    /// top to bottom, each with a label column of twelve cells. A row is
    /// highlighted if the form has the focus and the row's field is the
    /// selected one. Nothing is laid out beyond `area`.
    pub fn layout(&self, area: Rect, focused: bool) -> (plan: Vec<Paint<'_>>)
        ensures
            marks_of(plan@) == self.marks(focused),
            self.placed(area, areas_of(plan@)),
            plan@.len() == 6,
            plan_within(plan@, area),
    {
        let mut heights: Vec<u16> = Vec::new();
        heights.push(1);
        heights.push(1);
        heights.push(1);
        assert(heights@ =~= self.row_heights());
        let rows = rows_of(area, &heights);
        let mut plan = scalar_row(rows[0], "name", focused && self.selected == 0, &self.name.input);
        proof {
            lemma_plan_within_part(plan@, rows@[0], area);
        }
        let second = scalar_row(rows[1], "cool", focused && self.selected == 1, &self.cool.input);
        append_plan(&mut plan, second, rows[1], area);
        let third = scalar_row(
            rows[2],
            "whatever",
            focused && self.selected == 2,
            &self.whatever.input,
        );
        append_plan(&mut plan, third, rows[2], area);
        proof {
            assert(divides(Direction::Vertical, lengths(self.row_heights()), area, rows@));
        }
        plan
    }

    /// Draws the form into `area` of `buffer`: it lays the form out in `area`
    /// and paints that plan, paint by paint. The cells afterwards are what
    /// painting makes of them for paints that show what the form shows and
    /// go where the form places them. The buffer keeps its bounds, and every
    /// cell outside `area` keeps what it holds.
    pub fn render(&self, area: Rect, buffer: &mut Buffer, focused: bool)
        ensures
            buffer_bounds(*final(buffer)) == buffer_bounds(*old(buffer)),
            same_outside(*old(buffer), *final(buffer), area),
            exists|paints: Seq<PaintView>|
                {
                    &&& #[trigger] painted(
                        paints,
                        buffer_bounds(*old(buffer)),
                        buffer_cells(*old(buffer)),
                        buffer_cells(*final(buffer)),
                    )
                    &&& marks_in(paints) == self.marks(focused)
                    &&& self.placed(area, areas_in(paints))
                },
    {
        let plan = self.layout(area, focused);
        paint_in(&plan, buffer, area);
        proof {
            lemma_shown(plan@);
        }
    }
}

/// The form of a `Role`: one of its variants is selected, and only that one
/// is shown and edited.
pub struct RoleForm {
    /// The index of the selected variant.
    pub selected_variant: usize,
    pub admin: (),
    pub guest: RoleGuestForm,
    pub user: (),
}

/// The state of a `RoleForm`.
pub struct RoleFormView {
    pub selected_variant: usize,
    /// The slot of `Admin`, which holds nothing.
    pub admin: (),
    pub guest: RoleGuestFormView,
    /// The slot of `User`, which holds nothing.
    pub user: (),
}

impl View for RoleForm {
    type V = RoleFormView;

    open spec fn view(&self) -> RoleFormView {
        RoleFormView {
            selected_variant: self.selected_variant,
            admin: self.admin,
            guest: self.guest@,
            user: self.user,
        }
    }
}

impl RoleFormView {
    /// Whether the field that has the focus uses every character typed: the
    /// selected variant has such a field.
    pub open spec fn takes_typing(self) -> bool {
        self.selected_variant == 1 && self.guest.takes_typing()
    }

    /// Which fields take back unreadable edits, field by field in order,
    /// over all variants.
    pub open spec fn validation(self) -> Seq<bool> {
        self.guest.validation()
    }

    /// The state after a key that no field can use, and whether the key was
    /// used: the selection moves where `variant_step` says.
    pub open spec fn reselected(self, key: Key) -> (RoleFormView, bool) {
        (
            RoleFormView {
                selected_variant: variant_moved(self.selected_variant, 3, key),
                ..self
            },
            variant_step(self.selected_variant, 3, key) is Some,
        )
    }

    /// The state after an arrow key, and whether the key was used: the
    /// selected variant sees it first, then the selection.
    pub open spec fn arrowed(self, key: Key) -> (RoleFormView, bool) {
        if self.selected_variant == 1 && self.guest.arrowed(key).1 {
            (RoleFormView { guest: self.guest.arrowed(key).0, ..self }, true)
        } else {
            self.reselected(key)
        }
    }
}

/// The state of a `RoleForm` in which nothing has been typed or selected.
pub open spec fn fresh_role_form() -> RoleFormView {
    RoleFormView { selected_variant: 0, admin: (), guest: fresh_guest_form(), user: () }
}

/// The name of the variant at `index`, or `"???"` where there is none.
pub open spec fn variant_name(index: usize) -> Seq<char> {
    if index == 0 {
        "Admin"@
    } else if index == 1 {
        "Guest"@
    } else if index == 2 {
        "User"@
    } else {
        "???"@
    }
}

impl RoleForm {
    /// The selection is on a variant, and the focus of each variant's form is
    /// on one of its fields.
    pub open spec fn wf(&self) -> bool {
        self.selected_variant < 3 && self.guest.wf()
    }

    /// Whether every field of every variant is at rest: its cursor stands
    /// behind its text and nothing is selected.
    pub open spec fn at_rest(&self) -> bool {
        self.guest.at_rest()
    }

    /// Whether a selection is under way in the field that has the focus.
    pub open spec fn focus_selecting(&self) -> bool {
        self.selected_variant == 1 && self.guest.focus_selecting()
    }

    /// Whether the field that has the focus takes the character that `input`
    /// types: the selected variant has such a field.
    pub open spec fn takes(&self, input: Input) -> bool {
        self.selected_variant == 1 && self.guest.takes(input)
    }

    /// Whether the form is `before` with the character of `input` typed into
    /// the field that has the focus, and nothing else changed.
    pub open spec fn typed_from(&self, before: Self, input: Input) -> bool {
        self.selected_variant == before.selected_variant && self.guest.typed_from(
            before.guest,
            input,
        )
    }

    /// The number of lines the selected variant takes: one for each of its
    /// fields.
    pub open spec fn inner_height(&self) -> nat {
        if self.selected_variant == 1 {
            3
        } else {
            0
        }
    }

    /// The number of lines the form asks for: the selected variant's, and two
    /// more for the header and the space around it.
    pub open spec fn spec_height(&self) -> nat {
        self.inner_height() + 2
    }

    /// The value the form stands for: that of the selected variant, if it
    /// stands for one.
    pub open spec fn spec_build(&self) -> Option<RoleView> {
        if self.selected_variant == 0 {
            Some(RoleView::Admin)
        } else if self.selected_variant == 1 {
            self.guest.spec_build()
        } else if self.selected_variant == 2 {
            Some(RoleView::User)
        } else {
            None
        }
    }

    /// What the selected variant shows.
    pub open spec fn inner_marks(&self, focused: bool) -> Seq<Mark> {
        if self.selected_variant == 1 {
            self.guest.marks(focused)
        } else {
            Seq::empty()
        }
    }

    /// The number of paints the form lays out: its header, and the paints of
    /// the selected variant.
    pub open spec fn spec_count(&self) -> nat {
        if self.selected_variant == 1 {
            7
        } else {
            1
        }
    }

    /// Whether `areas` is where the form's paints go in `area`: the header in
    /// the first line of `area`, and the selected variant in what is below
    /// it, behind an indent of two cells.
    pub open spec fn placed(&self, area: Rect, areas: Seq<Rect>) -> bool {
        exists|body: Rect|
            {
                &&& areas.len() == self.spec_count()
                &&& #[trigger] headed(area, 2, areas[0], body)
                &&& self.selected_variant == 1 ==> self.guest.placed(body, areas.skip(1))
            }
    }

    /// What the form shows: the header that names the selected variant, then
    /// that variant.
    pub open spec fn marks(&self, focused: bool) -> Seq<Mark> {
        variant_marks(variant_name(self.selected_variant), self.inner_marks(focused), focused)
    }

    /// A form in which nothing has been typed, with the first variant
    /// selected.
    pub fn new() -> (form: Self)
        ensures
            form@ == fresh_role_form(),
            form.wf(),
            form.at_rest(),
    {
        RoleForm { selected_variant: 0, admin: (), guest: RoleGuestForm::new(), user: () }
    }

    /// The number of lines the form asks for.
    pub fn form_height(&self) -> (height: u16)
        ensures
            height == self.spec_height(),
    {
        let inner: u16 = if self.selected_variant == 1 {
            3
        } else {
            0
        };
        inner + 2
    }

    /// The name of the selected variant.
    pub fn variant_label(&self) -> (label: &'static str)
        ensures
            label@ == variant_name(self.selected_variant),
    {
        if self.selected_variant == 0 {
            "Admin"
        } else if self.selected_variant == 1 {
            "Guest"
        } else if self.selected_variant == 2 {
            "User"
        } else {
            "???"
        }
    }

    /// Hands a key event to the form: first to the selected variant and, if
    /// that does not use it, to the selection itself. The result says whether
    /// the key was used. Only the selected variant can change. A character that
    /// the field with the focus takes goes into its text at the cursor and is
    /// used. While nothing is selected in it, a key that nothing used changes
    /// nothing. A key that
    /// nothing used moves no selection; a key that moved the selection changed
    /// no variant. What an arrow key does is settled by the state alone, and
    /// so is what any key does while a variant without fields is selected. No
    /// key changes which fields validate, and a character typed without Ctrl
    /// or Alt is used whenever the field that has the focus does not validate.
    pub fn input(&mut self, input: Input) -> (handled: bool)
        requires
            old(self).guest.wf(),
        ensures
            final(self).guest.wf(),
            final(self)@.validation() == old(self)@.validation(),
            input.is_typed() && old(self)@.takes_typing() ==> handled && final(self).selected_variant == old(self).selected_variant,
            input.key.is_arrow() ==> (final(self)@, handled) == old(self)@.arrowed(input.key),
            old(self).selected_variant != 1 ==> (final(self)@, handled) == old(self)@.reselected(
                input.key,
            ),
            old(self).selected_variant < 3 ==> final(self).selected_variant < 3,
            old(self).selected_variant != 1 ==> final(self).guest == old(self).guest,
            old(self).takes(input) ==> handled && final(self).typed_from(*old(self), input),
            !handled && !old(self).focus_selecting() ==> final(self)@ == old(self)@,
            !handled ==> final(self).selected_variant == old(self).selected_variant
                && variant_step(
                old(self).selected_variant,
                3,
                input.key,
            ) is None,
            final(self).selected_variant != old(self).selected_variant ==> handled && final(self).selected_variant == variant_moved(old(self).selected_variant, 3, input.key) && final(self).guest@ == old(self).guest@,
    {
        let child_handled = if self.selected_variant == 1 {
            self.guest.input(input)
        } else {
            false
        };
        settle_variant(&mut self.selected_variant, 3, child_handled, input.key)
    }

    /// The value the selected variant stands for, or `None` while one of its
    /// fields does not read as a value.
    pub fn build(&self) -> (value: Option<Role>)
        ensures
            match value {
                Some(v) => self.spec_build() == Some(v@),
                None => self.spec_build() is None,
            },
    {
        if self.selected_variant == 0 {
            Some(Role::Admin)
        } else if self.selected_variant == 1 {
            self.guest.build()
        } else if self.selected_variant == 2 {
            Some(Role::User)
        } else {
            None
        }
    }

    /// Lays the form out in `area`: the header in the first line, and the
    /// selected variant below it, behind an indent of two cells. The variant
    /// has the focus if the form has it. Nothing is laid out beyond `area`.
    pub fn layout(&self, area: Rect, focused: bool) -> (plan: Vec<Paint<'_>>)
        ensures
            marks_of(plan@) == self.marks(focused),
            self.placed(area, areas_of(plan@)),
            plan@.len() == self.spec_count(),
            plan_within(plan@, area),
    {
        let (header, inner) = variant_head(area, self.variant_label(), focused);
        let mut plan = plan_of(header);
        assert(plan_within(plan@, area));
        if self.selected_variant == 1 {
            let fields = self.guest.layout(inner, focused);
            let ghost field_areas = areas_of(fields@);
            append_plan(&mut plan, fields, inner, area);
            proof {
                assert(areas_of(plan@).skip(1) =~= field_areas);
            }
        } else {
            assert(marks_of(plan@) + Seq::<Mark>::empty() =~= marks_of(plan@));
        }
        proof {
            assert(headed(area, 2, areas_of(plan@)[0], inner));
        }
        plan
    }

    /// Whether `areas` is where the form's paints go as a nested field in the
    /// rows `rows`: its label in the first line of `rows`, and the form in
    /// what is below it, behind an indent of four cells.
    pub open spec fn placed_nested(&self, rows: Rect, areas: Seq<Rect>) -> bool {
        exists|inner: Rect|
            {
                &&& areas.len() >= 1
                &&& #[trigger] headed(rows, 4, areas[0], inner)
                &&& self.placed(inner, areas.skip(1))
            }
    }

    /// Lays the form out as the nested field `name` of a record, in the rows
    /// `rows`: the label in the first line, and the form below it, behind an
    /// indent of four cells. The label is highlighted exactly if the form has
    /// the focus. Nothing is laid out beyond `rows`.
    pub fn layout_nested(&self, rows: Rect, name: &str, focused: bool) -> (plan: Vec<Paint<'_>>)
        ensures
            marks_of(plan@) == nested_row_marks(name@, self.marks(focused), focused),
            self.placed_nested(rows, areas_of(plan@)),
            plan@.len() == 1 + self.spec_count(),
            plan_within(plan@, rows),
    {
        let (label, inner) = nested_head(rows, name, focused);
        let mut plan = plan_of(label);
        assert(plan_within(plan@, rows));
        let form = self.layout(inner, focused);
        let ghost form_areas = areas_of(form@);
        append_plan(&mut plan, form, inner, rows);
        proof {
            assert(areas_of(plan@).skip(1) =~= form_areas);
            assert(headed(rows, 4, areas_of(plan@)[0], inner));
        }
        plan
    }

    /// Draws the form into `area` of `buffer`: it lays the form out in `area`
    /// and paints that plan, paint by paint. The cells afterwards are what
    /// painting makes of them for paints that show what the form shows and
    /// go where the form places them. The buffer keeps its bounds, and every
    /// cell outside `area` keeps what it holds.
    pub fn render(&self, area: Rect, buffer: &mut Buffer, focused: bool)
        ensures
            buffer_bounds(*final(buffer)) == buffer_bounds(*old(buffer)),
            same_outside(*old(buffer), *final(buffer), area),
            exists|paints: Seq<PaintView>|
                {
                    &&& #[trigger] painted(
                        paints,
                        buffer_bounds(*old(buffer)),
                        buffer_cells(*old(buffer)),
                        buffer_cells(*final(buffer)),
                    )
                    &&& marks_in(paints) == self.marks(focused)
                    &&& self.placed(area, areas_in(paints))
                },
    {
        let plan = self.layout(area, focused);
        paint_in(&plan, buffer, area);
        proof {
            lemma_shown(plan@);
        }
    }
}

impl Role {
    /// A fresh form for a `Role`.
    pub fn form() -> (form: RoleForm)
        ensures
            form@ == fresh_role_form(),
            form.wf(),
    {
        RoleForm::new()
    }
}

/// What a union form builds depends on the selected variant alone: two forms
/// with the same selection, whose selected variants stand for the same value,
/// stand for the same value, whatever their other variants hold.
pub proof fn lemma_build_reads_selected_variant(a: RoleForm, b: RoleForm)
    requires
        a.selected_variant == b.selected_variant,
        a.selected_variant == 1 ==> a.guest.spec_build() == b.guest.spec_build(),
    ensures
        a.spec_build() == b.spec_build(),
{
}

/// A record variant's form builds a value exactly if each of its fields
/// stands for one.
pub proof fn lemma_guest_build_complete(form: RoleGuestForm)
    ensures
        form.spec_build() is Some <==> form.name.spec_value() is Some && form.cool.spec_value()
            is Some && form.whatever.spec_value() is Some,
{
}

/// In a drawing of a record variant's form, the label of a row is
/// highlighted exactly if the form has the focus and the row is the selected
/// one: so at most one row is, and none in a form without the focus.
pub proof fn lemma_guest_one_row_highlighted(form: RoleGuestForm, focused: bool, row: int)
    requires
        0 <= row < 3,
    ensures
        form.row_marks(row, focused)[0] matches Mark::Label { fg, .. } && (fg is Some <==> focused
            && form.selected == row),
{
}

/// What a record variant's form shows is fixed by its state and by whether
/// it has the focus: drawn twice in one state, it shows the same both times.
pub proof fn lemma_guest_marks_follow_state(a: RoleGuestForm, b: RoleGuestForm, focused: bool)
    requires
        a@ == b@,
    ensures
        a.marks(focused) == b.marks(focused),
{
}

/// What a union form shows is fixed by its state and by whether it has the
/// focus: drawn twice in one state, it shows the same both times.
pub proof fn lemma_role_marks_follow_state(a: RoleForm, b: RoleForm, focused: bool)
    requires
        a@ == b@,
    ensures
        a.marks(focused) == b.marks(focused),
{
    lemma_guest_marks_follow_state(a.guest, b.guest, focused);
}

/// A union form shows its header and the selected variant, and nothing of
/// the variants that are not selected.
pub proof fn lemma_role_shows_selected_variant(a: RoleForm, b: RoleForm, focused: bool)
    requires
        a.selected_variant == b.selected_variant,
        a.selected_variant == 1 ==> a.guest@ == b.guest@,
    ensures
        a.marks(focused) == b.marks(focused),
{
    if a.selected_variant == 1 {
        lemma_guest_marks_follow_state(a.guest, b.guest, focused);
    }
}

} // verus!
