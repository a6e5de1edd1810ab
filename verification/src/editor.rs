//! The single-line editor widget that holds a field's text.
//!
//! The widget is `tui_textarea::TextArea`. Verus does not look inside it: the
//! functions here are the only way the rest of the crate touches it, and their
//! contracts are taken on trust from the widget's source. They speak of its
//! lines, its cursor and whether a selection is under way. Where it is
//! scrolled to has no name: the widget stores that while it is drawn, through
//! a shared reference, so that to Verus the editor is the same before and
//! after.

use vstd::prelude::*;
use crate::area::Rect;
use crate::key::{Input, Key};
use crate::surface::{buffer_bounds, buffer_cells};
use ratatui::buffer::Buffer;
use ratatui::widgets::Widget;
use tui_textarea::Key as WidgetKey;

verus! {

/// An editing widget with its text, cursor, selection, history and scroll
/// position. An editor learns the size of an area only by being drawn in it,
/// and `editor_paint` draws it only in areas of at most 32767 rows.
#[verifier::external_body]
pub struct Editor {
    inner: tui_textarea::TextArea<'static>,
}

/// The lines of text an editor holds, in order.
pub uninterp spec fn editor_lines(editor: Editor) -> Seq<Seq<char>>;

/// Where an editor's cursor stands: the index of its line, and the number of
/// characters before it in that line.
pub uninterp spec fn editor_cursor(editor: Editor) -> (nat, nat);

/// Whether a selection is under way in an editor.
pub uninterp spec fn editor_selecting(editor: Editor) -> bool;

/// Whether `cursor` stands in a line of `lines`, at or before its end.
pub open spec fn caret_ok(lines: Seq<Seq<char>>, cursor: (nat, nat)) -> bool {
    cursor.0 < lines.len() && cursor.1 <= lines[cursor.0 as int].len()
}

/// `lines` with `c` put into the cursor's line at the cursor.
pub open spec fn typed_lines(lines: Seq<Seq<char>>, cursor: (nat, nat), c: char) -> Seq<Seq<char>> {
    lines.update(cursor.0 as int, lines[cursor.0 as int].insert(cursor.1 as int, c))
}

/// The cursor one character further in its line.
pub open spec fn advanced(cursor: (nat, nat)) -> (nat, nat) {
    (cursor.0, cursor.1 + 1)
}

/// The views of a sequence of strings.
pub open spec fn views(lines: Seq<String>) -> Seq<Seq<char>> {
    Seq::new(lines.len(), |i: int| lines[i]@)
}

/// `TextArea::new`: an editor that holds the given lines, where there is at
/// least one. Its cursor stands before the first character of the first
/// line, and nothing is selected.
#[verifier::external_body]
pub(crate) fn editor_new(lines: Vec<String>) -> (editor: Editor)
    ensures
        lines@.len() > 0 ==> editor_lines(editor) == views(lines@),
        editor_cursor(editor) == (0nat, 0nat),
        !editor_selecting(editor),
{
    Editor { inner: tui_textarea::TextArea::new(lines) }
}

/// `TextArea::move_cursor` with `CursorMove::End`: puts the cursor behind the
/// last character of its line. The text stays as it is, and a selection goes
/// on exactly if one was under way.
#[verifier::external_body]
pub(crate) fn editor_cursor_to_end(editor: &mut Editor)
    ensures
        editor_lines(*final(editor)) == editor_lines(*old(editor)),
        editor_selecting(*final(editor)) == editor_selecting(*old(editor)),
        editor_cursor(*final(editor)).0 == editor_cursor(*old(editor)).0,
        caret_ok(editor_lines(*old(editor)), editor_cursor(*old(editor))) ==> editor_cursor(
            *final(editor),
        ).1 == editor_lines(*old(editor))[editor_cursor(*old(editor)).0 as int].len(),
{
    editor.inner.move_cursor(tui_textarea::CursorMove::End)
}

/// `TextArea::lines`: a copy of the lines the editor holds.
#[verifier::external_body]
pub(crate) fn editor_snapshot(editor: &Editor) -> (lines: Vec<String>)
    ensures
        views(lines@) == editor_lines(*editor),
{
    editor.inner.lines().to_vec()
}

/// `TextArea::input`: hands one key event to the editor, with the widget's
/// default key bindings. The result is the widget's report of whether it
/// modified the text.
///
/// - Afterwards the cursor stands in a line of the text, at or before its
///   end: the widget checks this after every key.
/// - An arrow key, with or without modifiers, only moves the cursor or the
///   selection: the report is `false` and the lines are as before. Without
///   Shift it starts no selection.
/// - A character typed without Ctrl or Alt is inserted: the report is `true`.
///   Where nothing is selected and the character is no line break, it goes
///   into the cursor's line at the cursor, the cursor moves behind it, and
///   nothing is selected afterwards.
/// - Where nothing is selected, a report of `false` means that the lines are
///   as before. Over a selection that does not hold: pasting an empty
///   clipboard removes the selection and reports `false`.
///
/// Page Up and Page Down scroll by the height of the area the editor was last
/// drawn in, which the widget negates in 16 bits: see `Editor`.
#[verifier::external_body]
pub(crate) fn editor_input(editor: &mut Editor, input: Input) -> (modified: bool)
    ensures
        caret_ok(editor_lines(*final(editor)), editor_cursor(*final(editor))),
        input.key.is_arrow() ==> !modified && editor_lines(*final(editor)) == editor_lines(
            *old(editor),
        ),
        input.key.is_arrow() && !input.shift && !editor_selecting(*old(editor))
            ==> !editor_selecting(*final(editor)),
        input.is_typed() ==> modified,
        input.is_text() && !editor_selecting(*old(editor)) && caret_ok(
            editor_lines(*old(editor)),
            editor_cursor(*old(editor)),
        ) ==> editor_lines(*final(editor)) == typed_lines(
            editor_lines(*old(editor)),
            editor_cursor(*old(editor)),
            input.typed_char(),
        ) && editor_cursor(*final(editor)) == advanced(editor_cursor(*old(editor)))
            && !editor_selecting(*final(editor)),
        !modified && !editor_selecting(*old(editor)) ==> editor_lines(*final(editor))
            == editor_lines(*old(editor)),
{
    let key = match input.key {
        Key::Char(c) => WidgetKey::Char(c), Key::F(n) => WidgetKey::F(n),
        Key::Backspace => WidgetKey::Backspace, Key::Delete => WidgetKey::Delete,
        Key::Enter => WidgetKey::Enter, Key::Tab => WidgetKey::Tab,
        Key::Left => WidgetKey::Left, Key::Right => WidgetKey::Right,
        Key::Up => WidgetKey::Up, Key::Down => WidgetKey::Down,
        Key::Home => WidgetKey::Home, Key::End => WidgetKey::End,
        Key::PageUp => WidgetKey::PageUp, Key::PageDown => WidgetKey::PageDown,
        Key::Esc => WidgetKey::Esc, Key::Null => WidgetKey::Null,
    };
    editor.inner.input(tui_textarea::Input { key, ctrl: input.ctrl, alt: input.alt, shift: input.shift })
}

/// Whether text of these lines can be scrolled in an area of this size. The
/// widget computes, in 16 bits without a sign, the cursor's line plus the
/// height of the area and the cursor's column plus one plus the width of the
/// area; and it negates the height of the area in 16 bits with a sign. So the
/// number of lines and the height fit 16 bits together, the length of each
/// line and the width stay below that, and the height is at most 32767.
pub open spec fn scrollable(lines: Seq<Seq<char>>, area: Rect) -> bool {
    &&& area.height <= i16::MAX
    &&& lines.len() + area.height <= u16::MAX
    &&& forall|i: int| 0 <= i < lines.len() ==> (#[trigger] lines[i]).len() + area.width < u16::MAX
}

/// `TextArea::render`: the editor draws its text and its cursor into `area`,
/// scrolled so that the cursor shows. The toolkit indexes the buffer by the
/// cells of `area`, so `area` has to lie inside the buffer. To scroll, the
/// widget adds the cursor's line and column to the size of the area in 16
/// bits, so the text has to be scrollable in `area`. The buffer keeps its
/// bounds, and every cell outside `area` keeps what it holds: the widget draws
/// through a paragraph in `area`. Which cells of `area` it changes depends on
/// its cursor and on where it was scrolled to when it was last drawn.
#[verifier::external_body]
pub(crate) fn editor_paint(editor: &Editor, buffer: &mut Buffer, area: Rect)
    requires
        area.paintable(buffer_bounds(*old(buffer))),
        scrollable(editor_lines(*editor), area),
    ensures
        buffer_bounds(*final(buffer)) == buffer_bounds(*old(buffer)),
        forall|x: int, y: int|
            buffer_bounds(*old(buffer)).covers(x, y) && !area.covers(x, y) ==> #[trigger] buffer_cells(
                *final(buffer),
            )[(x, y)] == buffer_cells(*old(buffer))[(x, y)],
{
    let area = ratatui::layout::Rect { x: area.x, y: area.y, width: area.width, height: area.height };
    (&editor.inner).render(area, buffer)
}

} // verus!
