//! The drawing surface and the layout solver of the terminal toolkit.
//!
//! Both are `ratatui`'s. Verus does not look inside them: the contracts here
//! are taken on trust from the toolkit's source.
//!
//! - Of the solver: how many parts it makes, that each keeps the extent of
//!   the area across the direction of the split, and that what it returns is
//!   one of the divisions it may make for what it was asked. Which of them it
//!   is has no name: the solver picks its pivots while walking hash maps.
//! - Of the paragraph widget: that what the cells hold afterwards follows
//!   from what they held, the area, the text and the colour alone, and that
//!   it leaves the cells outside its area alone.

use vstd::prelude::*;
use crate::area::{Constraint, Direction, Rect};
use ratatui::buffer::Buffer;
use ratatui::layout::{Constraint as SolverConstraint, Direction as SolverDirection, Layout};
use ratatui::style::{Color as CellColor, Style};
use ratatui::widgets::{Paragraph, WidgetRef};

verus! {

#[verifier::external_type_specification]
#[verifier::external_body]
pub struct ExBuffer(Buffer);

/// A foreground colour for a label.
#[derive(Clone, Copy, Debug, PartialEq, Eq)]
pub enum Color {
    Yellow,
}

/// The rectangle of cells that a buffer holds.
pub uninterp spec fn buffer_bounds(buffer: Buffer) -> Rect;

/// What one cell of a buffer holds.
pub struct CellView {
    /// The text the cell shows.
    pub symbol: Seq<char>,
    /// The cell's colours and text attributes as one number: two cells have
    /// the same number exactly if they have the same colours and attributes.
    pub look: int,
}

/// The cells that a buffer holds, by column and row.
pub uninterp spec fn buffer_cells(buffer: Buffer) -> Map<(int, int), CellView>;

/// The cells of a buffer of the given bounds after the toolkit's paragraph
/// widget has written `text` into `area`, in the foreground colour `fg` or,
/// without one, in the colours the cells have.
pub uninterp spec fn label_painted(
    cells: Map<(int, int), CellView>,
    bounds: Rect,
    area: Rect,
    text: Seq<char>,
    fg: Option<Color>,
) -> Map<(int, int), CellView>;

/// Whether `after` holds what `before` holds in every cell that lies outside
/// `area`.
pub open spec fn same_outside(before: Buffer, after: Buffer, area: Rect) -> bool {
    forall|x: int, y: int|
        buffer_bounds(before).covers(x, y) && !area.covers(x, y) ==> #[trigger] buffer_cells(
            after,
        )[(x, y)] == buffer_cells(before)[(x, y)]
}

/// Reads `Buffer::area`, the rectangle of cells that the buffer holds.
#[verifier::external_body]
pub(crate) fn buffer_area(buffer: &Buffer) -> (area: Rect)
    ensures
        area == buffer_bounds(*buffer),
{
    let area = buffer.area;
    Rect { x: area.x, y: area.y, width: area.width, height: area.height }
}

/// Whether the toolkit's solver may divide `area` along `direction` into
/// `parts` when asked for `constraints`. The solver picks its pivots while
/// walking hash maps, so where several divisions are equally good it may give
/// one on one call and another on the next: this says of a division that it
/// is one of them, not which.
pub uninterp spec fn solver_gives(
    direction: Direction,
    constraints: Seq<Constraint>,
    area: Rect,
    parts: Seq<Rect>,
) -> bool;

/// `Layout::split`: divides `area` along `direction` into one part for each
/// constraint, in the order of the constraints. Where a part begins and ends
/// along `direction` is the solver's decision; across it, every part has the
/// extent of `area`: the toolkit copies it from `area`.
#[verifier::external_body]
pub(crate) fn split(direction: Direction, constraints: &Vec<Constraint>, area: Rect) -> (parts: Vec<Rect>)
    ensures
        solver_gives(direction, constraints@, area, parts@),
        parts@.len() == constraints@.len(),
        forall|i: int| 0 <= i < parts@.len() ==> (#[trigger] parts@[i]).spans(area, direction),
{
    let direction = match direction {
        Direction::Horizontal => SolverDirection::Horizontal,
        Direction::Vertical => SolverDirection::Vertical,
    };
    let constraints = constraints.iter().map(|c| match c {
        Constraint::Length(n) => SolverConstraint::Length(*n),
        Constraint::Min(n) => SolverConstraint::Min(*n),
    });
    let area = ratatui::layout::Rect { x: area.x, y: area.y, width: area.width, height: area.height };
    let parts = Layout::default().direction(direction).constraints(constraints).split(area);
    parts.iter().map(|r| Rect { x: r.x, y: r.y, width: r.width, height: r.height }).collect()
}

/// `Paragraph::render_ref`: writes `text` as one paragraph into `area`, in the
/// given foreground colour or, without one, in the colours the cells have. The
/// toolkit indexes the buffer by the cells of `area`, so `area` has to lie
/// inside the buffer. The buffer keeps its bounds, and every cell outside
/// `area` keeps what it holds: the paragraph styles the cells of `area` and
/// writes its lines, cut to the width of `area`, into its rows. What the
/// cells hold afterwards follows from what they held, the bounds, `area`,
/// the text and the colour alone.
#[verifier::external_body]
pub(crate) fn paint_label(buffer: &mut Buffer, area: Rect, text: &str, fg: Option<Color>)
    requires
        area.paintable(buffer_bounds(*old(buffer))),
    ensures
        buffer_bounds(*final(buffer)) == buffer_bounds(*old(buffer)),
        buffer_cells(*final(buffer)) == label_painted(
            buffer_cells(*old(buffer)),
            buffer_bounds(*old(buffer)),
            area,
            text@,
            fg,
        ),
        forall|x: int, y: int|
            buffer_bounds(*old(buffer)).covers(x, y) && !area.covers(x, y) ==> #[trigger] buffer_cells(
                *final(buffer),
            )[(x, y)] == buffer_cells(*old(buffer))[(x, y)],
{
    let style = match fg {
        Some(Color::Yellow) => Style::default().fg(CellColor::Yellow),
        None => Style::default(),
    };
    let area = ratatui::layout::Rect { x: area.x, y: area.y, width: area.width, height: area.height };
    Paragraph::new(text).style(style).render_ref(area, buffer)
}

} // verus!
