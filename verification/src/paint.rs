//! What a form draws: labels and text fields, each in its rectangle.
//!
//! A form first lays itself out as a plan, the list of things to draw in
//! drawing order, and then paints the plan onto a buffer. What a plan shows is
//! fixed by the state of the form. Where its paints go is fixed up to the
//! toolkit's layout solver: the contracts say what the solver is asked (rows
//! of which heights, a label column of twelve cells, which indent) and that
//! each area is one the solver may give for it, cut down to its parent.

use vstd::prelude::*;
use crate::area::{Constraint, Direction, Rect};
use crate::editor::{editor_lines, editor_paint, editor_snapshot, scrollable, views, Editor};
use crate::surface::{
    buffer_area,
    buffer_bounds,
    buffer_cells,
    label_painted,
    paint_label,
    same_outside,
    CellView,
    solver_gives,
    split,
    Color,
};
use ratatui::buffer::Buffer;

verus! {

/// One thing to draw.
pub enum Paint<'a> {
    /// A line of text, in a foreground colour or in the one that is there.
    Label { area: Rect, text: String, fg: Option<Color> },
    /// A text field, drawn by its editor.
    Field { area: Rect, editor: &'a Editor },
}

/// What a paint shows, wherever it is put.
pub enum Mark {
    Label { text: Seq<char>, fg: Option<Color> },
    Field { lines: Seq<Seq<char>> },
}

impl<'a> Paint<'a> {
    /// What this paint shows.
    pub open spec fn mark(self) -> Mark {
        match self {
            Paint::Label { area, text, fg } => Mark::Label { text: text@, fg },
            Paint::Field { area, editor } => Mark::Field { lines: editor_lines(*editor) },
        }
    }

    /// Where this paint goes.
    pub open spec fn area(self) -> Rect {
        match self {
            Paint::Label { area, text, fg } => area,
            Paint::Field { area, editor } => area,
        }
    }
}

/// What the paints of a plan show, in drawing order.
pub open spec fn marks_of<'a>(plan: Seq<Paint<'a>>) -> Seq<Mark> {
    Seq::new(plan.len(), |i: int| plan[i].mark())
}

/// The colour of a label: yellow where its row has the focus.
pub open spec fn highlight(highlighted: bool) -> Option<Color> {
    if highlighted {
        Some(Color::Yellow)
    } else {
        None
    }
}

/// The label of a scalar field: its name, behind `"> "` where the field has
/// the focus.
pub open spec fn scalar_label(name: Seq<char>, highlighted: bool) -> Seq<char> {
    if highlighted {
        "> "@ + name
    } else {
        name
    }
}

/// The label of a nested form: the scalar label and a colon.
pub open spec fn nested_label(name: Seq<char>, highlighted: bool) -> Seq<char> {
    scalar_label(name, highlighted) + ":"@
}

/// The header of a union form: the selected variant's name in square
/// brackets, behind `">"` where the form has the focus.
pub open spec fn variant_header(variant: Seq<char>, focused: bool) -> Seq<char> {
    if focused {
        ">["@ + variant + "]"@
    } else {
        "["@ + variant + "]"@
    }
}

/// The marks of a scalar field's row: its label, then the field.
pub open spec fn scalar_row_marks(name: Seq<char>, lines: Seq<Seq<char>>, highlighted: bool) -> Seq<
    Mark,
> {
    seq![
        Mark::Label { text: scalar_label(name, highlighted), fg: highlight(highlighted) },
        Mark::Field { lines },
    ]
}

/// The marks of a nested form's rows: its label, then what the form shows.
pub open spec fn nested_row_marks(name: Seq<char>, inner: Seq<Mark>, highlighted: bool) -> Seq<
    Mark,
> {
    seq![Mark::Label { text: nested_label(name, highlighted), fg: highlight(highlighted) }] + inner
}

/// The marks of a union form: its header, then what the selected variant
/// shows.
pub open spec fn variant_marks(variant: Seq<char>, inner: Seq<Mark>, focused: bool) -> Seq<Mark> {
    seq![Mark::Label { text: variant_header(variant, focused), fg: None }] + inner
}

/// Whether every paint of a plan may be painted in `area`: each lies in it
/// or is empty.
pub open spec fn plan_within<'a>(plan: Seq<Paint<'a>>, area: Rect) -> bool {
    forall|i: int| 0 <= i < plan.len() ==> (#[trigger] plan[i]).area().paintable(area)
}

/// A paint in contracts: where it goes and what it shows.
pub struct PaintView {
    pub area: Rect,
    pub mark: Mark,
}

/// The paints of a plan in contracts, in drawing order.
pub open spec fn shown<'a>(plan: Seq<Paint<'a>>) -> Seq<PaintView> {
    Seq::new(plan.len(), |i: int| PaintView { area: plan[i].area(), mark: plan[i].mark() })
}

/// What paints show, in drawing order.
pub open spec fn marks_in(paints: Seq<PaintView>) -> Seq<Mark> {
    Seq::new(paints.len(), |i: int| paints[i].mark)
}

/// Where paints go, in drawing order.
pub open spec fn areas_in(paints: Seq<PaintView>) -> Seq<Rect> {
    Seq::new(paints.len(), |i: int| paints[i].area)
}

/// Whether painting `paint` on a buffer of the given bounds makes `after` of
/// the cells `before`. A paint is cut down to the bounds. A label is written
/// by the toolkit's paragraph widget. A field is drawn by its editor, which
/// changes cells of the field's area only; a field whose text cannot be
/// scrolled in its area is left out.
pub open spec fn paint_step(
    paint: PaintView,
    bounds: Rect,
    before: Map<(int, int), CellView>,
    after: Map<(int, int), CellView>,
) -> bool {
    let part = paint.area.clipped(bounds);
    match paint.mark {
        Mark::Label { text, fg } => after == label_painted(before, bounds, part, text, fg),
        Mark::Field { lines } => if scrollable(lines, part) {
            forall|x: int, y: int|
                bounds.covers(x, y) && !part.covers(x, y) ==> #[trigger] after[(x, y)] == before[(
                    x,
                    y,
                )]
        } else {
            after == before
        },
    }
}

/// Whether `states` are the cells of a buffer of the given bounds before,
/// between and after painting `paints` one after the other.
pub open spec fn paint_steps(
    paints: Seq<PaintView>,
    bounds: Rect,
    states: Seq<Map<(int, int), CellView>>,
) -> bool {
    &&& states.len() == paints.len() + 1
    &&& forall|i: int|
        0 <= i < paints.len() ==> paint_step(#[trigger] paints[i], bounds, states[i], states[i + 1])
}

/// Whether painting `paints` one after the other on a buffer of the given
/// bounds makes `after` of the cells `before`.
pub open spec fn painted(
    paints: Seq<PaintView>,
    bounds: Rect,
    before: Map<(int, int), CellView>,
    after: Map<(int, int), CellView>,
) -> bool {
    exists|states: Seq<Map<(int, int), CellView>>|
        {
            &&& #[trigger] paint_steps(paints, bounds, states)
            &&& states[0] == before
            &&& states[paints.len() as int] == after
        }
}

/// What a plan shows and where its paints go, read off its paints in
/// contracts.
pub proof fn lemma_shown<'a>(plan: Seq<Paint<'a>>)
    ensures
        marks_in(shown(plan)) == marks_of(plan),
        areas_in(shown(plan)) == areas_of(plan),
{
    assert(marks_in(shown(plan)) =~= marks_of(plan));
    assert(areas_in(shown(plan)) =~= areas_of(plan));
}

/// Whether one of the paints of a plan covers the cell in column `x` and row
/// `y`.
pub open spec fn plan_covers<'a>(plan: Seq<Paint<'a>>, x: int, y: int) -> bool {
    exists|i: int| 0 <= i < plan.len() && (#[trigger] plan[i]).area().covers(x, y)
}

/// A plan that stays in an area covers cells of that area only.
pub proof fn lemma_plan_covers_within<'a>(plan: Seq<Paint<'a>>, area: Rect, x: int, y: int)
    requires
        plan_within(plan, area),
        plan_covers(plan, x, y),
    ensures
        area.covers(x, y),
{
    let i = choose|i: int| 0 <= i < plan.len() && (#[trigger] plan[i]).area().covers(x, y);
    plan[i].area().lemma_covered_within(area, x, y);
}

/// The marks of two plans, one after the other.
pub proof fn lemma_marks_concat<'a>(first: Seq<Paint<'a>>, second: Seq<Paint<'a>>)
    ensures
        marks_of(first + second) == marks_of(first) + marks_of(second),
{
    assert(marks_of(first + second) =~= marks_of(first) + marks_of(second));
}

/// Two plans that stay in an area do so one after the other.
pub proof fn lemma_plan_within_concat<'a>(
    first: Seq<Paint<'a>>,
    second: Seq<Paint<'a>>,
    area: Rect,
)
    requires
        plan_within(first, area),
        plan_within(second, area),
    ensures
        plan_within(first + second, area),
{
    assert forall|i: int| 0 <= i < (first + second).len() implies (#[trigger] (first
        + second)[i]).area().paintable(area) by {
        if i < first.len() {
            assert((first + second)[i] == first[i]);
        } else {
            assert((first + second)[i] == second[i - first.len()]);
        }
    }
}

/// A plan that stays in a part of an area stays in the area.
pub proof fn lemma_plan_within_part<'a>(plan: Seq<Paint<'a>>, part: Rect, area: Rect)
    requires
        plan_within(plan, part),
        part.paintable(area),
    ensures
        plan_within(plan, area),
{
    assert forall|i: int| 0 <= i < plan.len() implies (#[trigger] plan[i]).area().paintable(
        area,
    ) by {
        plan[i].area().lemma_paintable_within(part, area);
    }
}

/// Builds the label of a scalar field.
pub fn scalar_label_text(name: &str, highlighted: bool) -> (text: String)
    ensures
        text@ == scalar_label(name@, highlighted),
{
    if highlighted {
        let mut text = "> ".to_owned();
        text.append(name);
        text
    } else {
        name.to_owned()
    }
}

/// Builds the label of a nested form.
pub fn nested_label_text(name: &str, highlighted: bool) -> (text: String)
    ensures
        text@ == nested_label(name@, highlighted),
{
    let mut text = scalar_label_text(name, highlighted);
    text.append(":");
    text
}

/// Builds the header of a union form.
pub fn variant_header_text(variant: &str, focused: bool) -> (text: String)
    ensures
        text@ == variant_header(variant@, focused),
{
    let mut text = if focused {
        ">[".to_owned()
    } else {
        "[".to_owned()
    };
    text.append(variant);
    text.append("]");
    text
}

/// The colour of a label, by whether its row has the focus.
pub fn highlight_color(highlighted: bool) -> (fg: Option<Color>)
    ensures
        fg == highlight(highlighted),
{
    if highlighted {
        Some(Color::Yellow)
    } else {
        None
    }
}

/// The constraints that cut a strip of `length` cells off an area and leave
/// the rest: `[Length(length), Min(0)]`.
pub fn strip_and_rest(length: u16) -> (constraints: Vec<Constraint>)
    ensures
        constraints@ == strip(length),
{
    let mut constraints: Vec<Constraint> = Vec::new();
    constraints.push(Constraint::Length(length));
    constraints.push(Constraint::Min(0));
    constraints
}

/// Where the paints of a plan go, in drawing order.
pub open spec fn areas_of<'a>(plan: Seq<Paint<'a>>) -> Seq<Rect> {
    Seq::new(plan.len(), |i: int| plan[i].area())
}

/// The constraints that cut a strip of `length` cells off an area and leave
/// the rest.
pub open spec fn strip(length: u16) -> Seq<Constraint> {
    seq![Constraint::Length(length), Constraint::Min(0)]
}

/// The constraints that ask for one part of each of the given lengths.
pub open spec fn lengths(sizes: Seq<u16>) -> Seq<Constraint> {
    Seq::new(sizes.len(), |i: int| Constraint::Length(sizes[i]))
}

/// Whether `parts` divides `area` along `direction` as asked by
/// `constraints`: it is a division the solver may give, each part cut down
/// to the cells of `area`.
pub open spec fn divides(
    direction: Direction,
    constraints: Seq<Constraint>,
    area: Rect,
    parts: Seq<Rect>,
) -> bool {
    exists|solved: Seq<Rect>|
        {
            &&& #[trigger] solver_gives(direction, constraints, area, solved)
            &&& solved.len() == parts.len()
            &&& forall|i: int| 0 <= i < parts.len() ==> #[trigger] parts[i] == solved[i].clipped(area)
        }
}

/// Whether `label` and `field` are the two columns of a scalar field's row:
/// the row divided from left to right into twelve cells and the rest.
pub open spec fn columns(row: Rect, label: Rect, field: Rect) -> bool {
    exists|cols: Seq<Rect>|
        {
            &&& #[trigger] divides(Direction::Horizontal, strip(12), row, cols)
            &&& cols.len() == 2
            &&& label == cols[0]
            &&& field == cols[1]
        }
}

/// Whether `head` is the first line of `area` and `body` what is below it
/// behind an indent: `area` divided from top to bottom into one line and the
/// rest, and the rest from left to right into `indent` cells and the rest.
pub open spec fn headed(area: Rect, indent: u16, head: Rect, body: Rect) -> bool {
    exists|rows: Seq<Rect>, cols: Seq<Rect>|
        {
            &&& #[trigger] divides(Direction::Vertical, strip(1), area, rows)
            &&& rows.len() == 2
            &&& #[trigger] divides(Direction::Horizontal, strip(indent), rows[1], cols)
            &&& cols.len() == 2
            &&& head == rows[0]
            &&& body == cols[1]
        }
}

/// Puts the plan `more`, laid out in `part`, behind `plan`. What the joined
/// plan shows is what the two show, one after the other; and if `plan` stays
/// in `area` and `part` is a part of `area`, the joined plan stays in `area`.
pub fn append_plan<'a>(plan: &mut Vec<Paint<'a>>, more: Vec<Paint<'a>>, part: Rect, area: Rect)
    requires
        plan_within(old(plan)@, area),
        plan_within(more@, part),
        part.paintable(area),
    ensures
        final(plan)@ == old(plan)@ + more@,
        marks_of(final(plan)@) == marks_of(old(plan)@) + marks_of(more@),
        areas_of(final(plan)@) == areas_of(old(plan)@) + areas_of(more@),
        plan_within(final(plan)@, area),
{
    let mut more = more;
    proof {
        assert(areas_of(plan@ + more@) =~= areas_of(plan@) + areas_of(more@));
        lemma_marks_concat(plan@, more@);
        lemma_plan_within_part(more@, part, area);
        lemma_plan_within_concat(plan@, more@, area);
    }
    plan.append(&mut more);
}

/// A plan of the one paint `first`.
pub fn plan_of<'a>(first: Paint<'a>) -> (plan: Vec<Paint<'a>>)
    ensures
        plan@ == seq![first],
        marks_of(plan@) == seq![first.mark()],
        areas_of(plan@) == seq![first.area()],
        forall|area: Rect| first.area().paintable(area) ==> #[trigger] plan_within(plan@, area),
{
    let mut plan: Vec<Paint<'a>> = Vec::new();
    plan.push(first);
    assert(plan@ =~= seq![first]);
    assert(marks_of(plan@) =~= seq![first.mark()]);
    assert(areas_of(plan@) =~= seq![first.area()]);
    plan
}

/// Divides `area` along `direction` into one part for each constraint, in
/// the order of the constraints. Where a part begins and ends along
/// `direction` is the solver's decision, but no part reaches beyond `area`:
/// each is cut down to the cells of `area`. Across `direction` every part has
/// the extent of `area`.
pub fn split_within(direction: Direction, constraints: &Vec<Constraint>, area: Rect) -> (parts: Vec<
    Rect,
>)
    ensures
        divides(direction, constraints@, area, parts@),
        parts@.len() == constraints@.len(),
        forall|i: int| 0 <= i < parts@.len() ==> (#[trigger] parts@[i]).paintable(area),
        forall|i: int| 0 <= i < parts@.len() ==> (#[trigger] parts@[i]).spans(area, direction),
{
    let solved = split(direction, constraints, area);
    let mut parts: Vec<Rect> = Vec::new();
    let mut i: usize = 0;
    while i < solved.len()
        invariant
            i <= solved.len(),
            parts@.len() == i,
            forall|j: int| 0 <= j < solved@.len() ==> (#[trigger] solved@[j]).spans(area, direction),
            forall|j: int| 0 <= j < i ==> (#[trigger] parts@[j]).paintable(area),
            forall|j: int| 0 <= j < i ==> (#[trigger] parts@[j]).spans(area, direction),
            forall|j: int| 0 <= j < i ==> #[trigger] parts@[j] == solved@[j].clipped(area),
        decreases solved.len() - i,
    {
        parts.push(solved[i].clip(area));
        i += 1;
    }
    parts
}

/// Lays out the row of a scalar field in `row`: a label column of twelve
/// cells, and the field in what the solver leaves of the row. Both have the
/// lines of `row`.
pub fn scalar_row<'a>(row: Rect, name: &str, highlighted: bool, editor: &'a Editor) -> (plan: Vec<
    Paint<'a>,
>)
    ensures
        plan@.len() == 2,
        columns(row, plan@[0].area(), plan@[1].area()),
        areas_of(plan@) == seq![plan@[0].area(), plan@[1].area()],
        plan@[0].area().spans(row, Direction::Horizontal),
        plan@[1].area().spans(row, Direction::Horizontal),
        marks_of(plan@) == scalar_row_marks(name@, editor_lines(*editor), highlighted),
        plan_within(plan@, row),
{
    let constraints = strip_and_rest(12);
    let cols = split_within(Direction::Horizontal, &constraints, row);
    let plan = place_scalar_row(&cols, name, highlighted, editor);
    assert(areas_of(plan@) =~= seq![plan@[0].area(), plan@[1].area()]);
    plan
}

/// The plan of a scalar field's row, given the two columns the solver made
/// of the row: the label in the first, the field in the second.
pub fn place_scalar_row<'a>(
    cols: &Vec<Rect>,
    name: &str,
    highlighted: bool,
    editor: &'a Editor,
) -> (plan: Vec<Paint<'a>>)
    requires
        cols@.len() == 2,
    ensures
        plan@.len() == 2,
        plan@[0].area() == cols@[0],
        plan@[1].area() == cols@[1],
        marks_of(plan@) == scalar_row_marks(name@, editor_lines(*editor), highlighted),
{
    let mut plan: Vec<Paint<'a>> = Vec::new();
    plan.push(
        Paint::Label {
            area: cols[0],
            text: scalar_label_text(name, highlighted),
            fg: highlight_color(highlighted),
        },
    );
    plan.push(Paint::Field { area: cols[1], editor });
    assert(marks_of(plan@) =~= scalar_row_marks(name@, editor_lines(*editor), highlighted));
    plan
}

/// The label of a nested form, to be drawn in `line`.
pub fn nested_label_paint<'a>(line: Rect, name: &str, highlighted: bool) -> (label: Paint<'a>)
    ensures
        label.area() == line,
        label.mark() == (Mark::Label {
            text: nested_label(name@, highlighted),
            fg: highlight(highlighted),
        }),
{
    Paint::Label {
        area: line,
        text: nested_label_text(name, highlighted),
        fg: highlight_color(highlighted),
    }
}

/// The header of a union form, to be drawn in `line`. It is never
/// highlighted.
pub fn variant_header_paint<'a>(line: Rect, variant: &str, focused: bool) -> (header: Paint<'a>)
    ensures
        header.area() == line,
        header.mark() == (Mark::Label { text: variant_header(variant@, focused), fg: None }),
{
    Paint::Label { area: line, text: variant_header_text(variant, focused), fg: None }
}

/// Cuts the first line off `area` and indents what is below it by `indent`
/// cells. The result is the first line and what the solver leaves below and
/// right of the indent. The first line has the columns of `area`; neither
/// part reaches beyond `area`.
pub fn head_and_body(area: Rect, indent: u16) -> (parts: (Rect, Rect))
    ensures
        headed(area, indent, parts.0, parts.1),
        parts.0.paintable(area),
        parts.0.spans(area, Direction::Vertical),
        parts.1.paintable(area),
{
    let lines = strip_and_rest(1);
    let rows = split_within(Direction::Vertical, &lines, area);
    let cols_wanted = strip_and_rest(indent);
    let cols = split_within(Direction::Horizontal, &cols_wanted, rows[1]);
    proof {
        cols@[1].lemma_paintable_within(rows@[1], area);
    }
    (rows[0], cols[1])
}

/// Lays out the head of a nested form's rows in `rows`: its label in the
/// first line, and below it, behind an indent of four cells, the area that is
/// left for the form itself. The result is the label and that area.
pub fn nested_head<'a>(rows: Rect, name: &str, highlighted: bool) -> (head: (Paint<'a>, Rect))
    ensures
        head.0.mark() == (Mark::Label {
            text: nested_label(name@, highlighted),
            fg: highlight(highlighted),
        }),
        headed(rows, 4, head.0.area(), head.1),
        head.0.area().paintable(rows),
        head.0.area().spans(rows, Direction::Vertical),
        head.1.paintable(rows),
{
    let (line, body) = head_and_body(rows, 4);
    (nested_label_paint(line, name, highlighted), body)
}

/// Lays out the head of a union form in `area`: its header in the first
/// line, and below it, behind an indent of two cells, the area that is left
/// for the selected variant. The result is the header and that area.
pub fn variant_head<'a>(area: Rect, variant: &str, focused: bool) -> (head: (Paint<'a>, Rect))
    ensures
        head.0.mark() == (Mark::Label { text: variant_header(variant@, focused), fg: None }),
        headed(area, 2, head.0.area(), head.1),
        head.0.area().paintable(area),
        head.0.area().spans(area, Direction::Vertical),
        head.1.paintable(area),
{
    let (line, body) = head_and_body(area, 2);
    (variant_header_paint(line, variant, focused), body)
}

/// The constraints that divide an area into rows of the given heights: one
/// `Length` for each height, in order.
pub fn row_constraints(heights: &Vec<u16>) -> (constraints: Vec<Constraint>)
    ensures
        constraints@ == lengths(heights@),
{
    let mut constraints: Vec<Constraint> = Vec::new();
    let mut i: usize = 0;
    while i < heights.len()
        invariant
            i <= heights.len(),
            constraints@.len() == i,
            forall|j: int| 0 <= j < i ==> constraints@[j] == Constraint::Length(heights@[j]),
        decreases heights.len() - i,
    {
        constraints.push(Constraint::Length(heights[i]));
        i += 1;
    }
    assert(constraints@ =~= lengths(heights@));
    constraints
}

/// Divides `area` from top to bottom into rows, asking the solver for the
/// given heights: one row for each height, in order, each with the columns
/// of `area` and none reaching beyond `area`.
pub fn rows_of(area: Rect, heights: &Vec<u16>) -> (rows: Vec<Rect>)
    ensures
        divides(Direction::Vertical, lengths(heights@), area, rows@),
        rows@.len() == heights@.len(),
        forall|i: int| 0 <= i < rows@.len() ==> (#[trigger] rows@[i]).paintable(area),
        forall|i: int| 0 <= i < rows@.len() ==> (#[trigger] rows@[i]).spans(area, Direction::Vertical),
{
    let constraints = row_constraints(heights);
    split_within(Direction::Vertical, &constraints, area)
}

/// Whether text of these lines can be scrolled in an area of this size.
pub fn is_scrollable(lines: &Vec<String>, area: Rect) -> (fits: bool)
    ensures
        fits == scrollable(views(lines@), area),
{
    let limit: usize = 0xffff;
    if area.height > 0x7fff || lines.len() > limit - area.height as usize {
        return false;
    }
    let mut i: usize = 0;
    while i < lines.len()
        invariant
            i <= lines.len(),
            limit == u16::MAX,
            forall|j: int| 0 <= j < i ==> (#[trigger] views(lines@)[j]).len() + area.width < u16::MAX,
        decreases lines.len() - i,
    {
        let length = lines[i].as_str().unicode_len();
        if length >= limit - area.width as usize {
            assert(views(lines@)[i as int].len() == length);
            return false;
        }
        assert(views(lines@)[i as int].len() == length);
        i += 1;
    }
    true
}

/// Paints a plan onto `buffer`, paint by paint in the order of the plan. A
/// paint that reaches beyond the buffer is cut down to the cells the buffer
/// has, and a field whose text is too long to be scrolled in its area is left
/// out. The buffer keeps its bounds, every cell that no paint of the plan
/// covers keeps what it holds, and an empty plan leaves the buffer as it is.
/// What a covered cell holds afterwards is up to the widgets that draw the
/// labels and the fields.
pub fn paint<'a>(plan: &Vec<Paint<'a>>, buffer: &mut Buffer)
    ensures
        buffer_bounds(*final(buffer)) == buffer_bounds(*old(buffer)),
        forall|x: int, y: int|
            buffer_bounds(*old(buffer)).covers(x, y) && !plan_covers(plan@, x, y)
                ==> #[trigger] buffer_cells(*final(buffer))[(x, y)] == buffer_cells(*old(buffer))[(
                x,
                y,
            )],
        plan@.len() == 0 ==> *final(buffer) == *old(buffer),
        painted(
            shown(plan@),
            buffer_bounds(*old(buffer)),
            buffer_cells(*old(buffer)),
            buffer_cells(*final(buffer)),
        ),
{
    let bounds = buffer_area(buffer);
    let mut i: usize = 0;
    let ghost mut states: Seq<Map<(int, int), CellView>> = seq![buffer_cells(*buffer)];
    while i < plan.len()
        invariant
            i <= plan.len(),
            bounds == buffer_bounds(*buffer),
            buffer_bounds(*buffer) == buffer_bounds(*old(buffer)),
            i == 0 ==> *buffer == *old(buffer),
            states.len() == i + 1,
            states[0] == buffer_cells(*old(buffer)),
            states[i as int] == buffer_cells(*buffer),
            forall|j: int|
                0 <= j < i ==> paint_step(
                    #[trigger] shown(plan@)[j],
                    bounds,
                    states[j],
                    states[j + 1],
                ),
            forall|x: int, y: int|
                buffer_bounds(*old(buffer)).covers(x, y) && !plan_covers(plan@.take(i as int), x, y)
                    ==> #[trigger] buffer_cells(*buffer)[(x, y)] == buffer_cells(*old(buffer))[(
                    x,
                    y,
                )],
        decreases plan.len() - i,
    {
        let ghost before = *buffer;
        let area = match &plan[i] {
            Paint::Label { area, .. } => *area,
            Paint::Field { area, .. } => *area,
        };
        let part = area.clip(bounds);
        match &plan[i] {
            Paint::Label { text, fg, .. } => {
                paint_label(buffer, part, text.as_str(), *fg);
            },
            Paint::Field { editor, .. } => {
                let lines = editor_snapshot(editor);
                if is_scrollable(&lines, part) {
                    editor_paint(editor, buffer, part);
                }
            },
        }
        proof {
            let done = plan@.take(i as int);
            let more = plan@.take(i + 1);
            assert forall|x: int, y: int|
                buffer_bounds(*old(buffer)).covers(x, y) && !plan_covers(
                    more,
                    x,
                    y,
                ) implies #[trigger] buffer_cells(*buffer)[(x, y)] == buffer_cells(*old(buffer))[(
                x,
                y,
            )] by {
                assert(more[i as int] == plan@[i as int]);
                assert(!plan@[i as int].area().covers(x, y));
                assert(!part.covers(x, y));
                if plan_covers(done, x, y) {
                    let j = choose|j: int|
                        0 <= j < done.len() && (#[trigger] done[j]).area().covers(x, y);
                    assert(more[j] == done[j]);
                }
                assert(buffer_cells(*buffer)[(x, y)] == buffer_cells(before)[(x, y)]);
            }
            let paints = shown(plan@);
            assert(paints[i as int].area == area);
            assert(paint_step(paints[i as int], bounds, buffer_cells(before), buffer_cells(*buffer)));
            let earlier = states;
            states = states.push(buffer_cells(*buffer));
            assert forall|j: int| 0 <= j < i + 1 implies paint_step(
                #[trigger] shown(plan@)[j],
                bounds,
                states[j],
                states[j + 1],
            ) by {
                if j < i {
                    assert(states[j] == earlier[j]);
                    assert(states[j + 1] == earlier[j + 1]);
                }
            }
        }
        i += 1;
    }
    assert(plan@.take(i as int) =~= plan@);
    assert(paint_steps(shown(plan@), bounds, states));
}

/// Paints a plan that stays in `area` onto `buffer`. Beyond what `paint`
/// says of the cells, every cell outside `area` keeps what it holds.
pub fn paint_in<'a>(plan: &Vec<Paint<'a>>, buffer: &mut Buffer, area: Rect)
    requires
        plan_within(plan@, area),
    ensures
        buffer_bounds(*final(buffer)) == buffer_bounds(*old(buffer)),
        same_outside(*old(buffer), *final(buffer), area),
        plan@.len() == 0 ==> *final(buffer) == *old(buffer),
        painted(
            shown(plan@),
            buffer_bounds(*old(buffer)),
            buffer_cells(*old(buffer)),
            buffer_cells(*final(buffer)),
        ),
{
    paint(plan, buffer);
    proof {
        assert forall|x: int, y: int|
            buffer_bounds(*old(buffer)).covers(x, y) && !area.covers(
                x,
                y,
            ) implies #[trigger] buffer_cells(*buffer)[(x, y)] == buffer_cells(*old(buffer))[(
            x,
            y,
        )] by {
            if plan_covers(plan@, x, y) {
                lemma_plan_covers_within(plan@, area, x, y);
            }
        }
    }
}

} // verus!
