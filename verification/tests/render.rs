use ratatui::buffer::Buffer;
use ratatui::style::Color as CellColor;
use reformy::address::AddressForm;
use reformy::area::{Constraint, Direction, Rect};
use reformy::key::{Input, Key};
use reformy::filtext::Filtext;
use reformy::paint::{
    paint_in, append_plan, head_and_body, plan_of, split_within, highlight_color, is_scrollable, nested_label_paint, nested_label_text, paint, row_constraints, rows_of,
    scalar_label_text, strip_and_rest, variant_header_paint, variant_header_text, Paint,
};
use reformy::role::{RoleAdminForm, RoleForm, RoleGuestForm, RoleUserForm};
use reformy::surface::Color;
use reformy::user::UserForm;
use reformy::whatever::WhateverForm;

fn rect(x: u16, y: u16, width: u16, height: u16) -> Rect {
    Rect { x, y, width, height }
}

fn screen(width: u16, height: u16) -> Buffer {
    Buffer::empty(ratatui::layout::Rect::new(0, 0, width, height))
}

fn line(buffer: &Buffer, y: u16) -> String {
    let mut text = String::new();
    for x in 0..buffer.area.width {
        text.push_str(buffer.cell((x, y)).unwrap().symbol());
    }
    text.trim_end().to_string()
}

fn fg(buffer: &Buffer, x: u16, y: u16) -> CellColor {
    buffer.cell((x, y)).unwrap().fg
}

fn labels(plan: &Vec<Paint<'_>>) -> Vec<(Rect, String, Option<Color>)> {
    let mut found = Vec::new();
    for paint in plan {
        if let Paint::Label { area, text, fg } = paint {
            found.push((*area, text.clone(), *fg));
        }
    }
    found
}

fn fields(plan: &Vec<Paint<'_>>) -> Vec<Rect> {
    let mut found = Vec::new();
    for paint in plan {
        if let Paint::Field { area, .. } = paint {
            found.push(*area);
        }
    }
    found
}

#[test]
fn single_field_plan_has_label_and_field() {
    let form = WhateverForm::new();
    let plan = form.layout(rect(0, 0, 40, 5), true);
    assert_eq!(plan.len(), 2);
    assert_eq!(labels(&plan), vec![(rect(0, 0, 12, 1), "> foo".to_string(), Some(Color::Yellow))]);
    assert_eq!(fields(&plan), vec![rect(12, 0, 28, 1)]);
}

#[test]
fn unfocused_form_highlights_nothing() {
    let form = WhateverForm::new();
    let plan = form.layout(rect(3, 2, 40, 5), false);
    assert_eq!(labels(&plan), vec![(rect(3, 2, 12, 1), "foo".to_string(), None)]);
    assert_eq!(fields(&plan), vec![rect(15, 2, 28, 1)]);
}

#[test]
fn guest_plan_highlights_the_selected_row_only() {
    let mut form = RoleGuestForm::new();
    assert!(form.input(Input::plain(Key::Down)));
    let plan = form.layout(rect(0, 0, 30, 3), true);
    assert_eq!(
        labels(&plan),
        vec![
            (rect(0, 0, 12, 1), "name".to_string(), None),
            (rect(0, 1, 12, 1), "> cool".to_string(), Some(Color::Yellow)),
            (rect(0, 2, 12, 1), "whatever".to_string(), None),
        ]
    );
    assert_eq!(fields(&plan), vec![rect(12, 0, 18, 1), rect(12, 1, 18, 1), rect(12, 2, 18, 1)]);
    let highlighted = labels(&plan).iter().filter(|l| l.2.is_some()).count();
    assert_eq!(highlighted, 1);
    let plan = form.layout(rect(0, 0, 30, 3), false);
    assert_eq!(labels(&plan).iter().filter(|l| l.2.is_some()).count(), 0);
}

#[test]
fn unit_variant_forms_draw_nothing() {
    assert!(RoleAdminForm::new().layout(rect(0, 0, 10, 10), true).is_empty());
    assert!(RoleUserForm::new().layout(rect(0, 0, 10, 10), true).is_empty());
    let mut buffer = screen(10, 2);
    RoleAdminForm::new().render(rect(0, 0, 10, 2), &mut buffer, true);
    RoleUserForm::new().render(rect(0, 0, 10, 2), &mut buffer, true);
    assert_eq!(line(&buffer, 0), "");
    assert_eq!(line(&buffer, 1), "");
}

#[test]
fn union_plan_shows_header_and_selected_variant() {
    let mut form = RoleForm::new();
    let plan = form.layout(rect(0, 0, 30, 5), false);
    assert_eq!(labels(&plan), vec![(rect(0, 0, 30, 1), "[Admin]".to_string(), None)]);
    assert!(fields(&plan).is_empty());

    let plan = form.layout(rect(0, 0, 30, 5), true);
    assert_eq!(labels(&plan), vec![(rect(0, 0, 30, 1), ">[Admin]".to_string(), None)]);

    assert!(form.input(Input::plain(Key::Right)));
    let plan = form.layout(rect(0, 0, 30, 5), true);
    assert_eq!(
        labels(&plan),
        vec![
            (rect(0, 0, 30, 1), ">[Guest]".to_string(), None),
            (rect(2, 1, 12, 1), "> name".to_string(), Some(Color::Yellow)),
            (rect(2, 2, 12, 1), "cool".to_string(), None),
            (rect(2, 3, 12, 1), "whatever".to_string(), None),
        ]
    );
    assert_eq!(fields(&plan), vec![rect(14, 1, 16, 1), rect(14, 2, 16, 1), rect(14, 3, 16, 1)]);

    assert!(form.input(Input::plain(Key::Right)));
    let plan = form.layout(rect(0, 0, 30, 5), false);
    assert_eq!(labels(&plan), vec![(rect(0, 0, 30, 1), "[User]".to_string(), None)]);

    form.selected_variant = 7;
    let plan = form.layout(rect(0, 0, 30, 5), false);
    assert_eq!(labels(&plan), vec![(rect(0, 0, 30, 1), "[???]".to_string(), None)]);
}

#[test]
fn address_plan_nests_and_indents() {
    let form = AddressForm::new();
    let plan = form.layout(rect(0, 0, 40, 10), true);
    assert_eq!(
        labels(&plan),
        vec![
            (rect(0, 0, 40, 1), "> whatever:".to_string(), Some(Color::Yellow)),
            (rect(4, 1, 12, 1), "> foo".to_string(), Some(Color::Yellow)),
            (rect(0, 2, 12, 1), "street".to_string(), None),
            (rect(0, 3, 12, 1), "number".to_string(), None),
        ]
    );
    assert_eq!(fields(&plan), vec![rect(16, 1, 24, 1), rect(12, 2, 28, 1), rect(12, 3, 28, 1)]);
}

#[test]
fn user_form_renders_every_row() {
    let form = UserForm::new();
    let mut buffer = screen(40, 12);
    form.render(rect(0, 0, 40, 12), &mut buffer, true);
    assert_eq!(line(&buffer, 0), "> name");
    assert_eq!(line(&buffer, 1), "age         0");
    assert_eq!(line(&buffer, 2), "role:");
    assert_eq!(line(&buffer, 3), "    [Admin]");
    assert_eq!(line(&buffer, 4), "email");
    assert_eq!(line(&buffer, 5), "address:");
    assert_eq!(line(&buffer, 6), "    whatever:");
    assert_eq!(line(&buffer, 7), "        foo");
    assert_eq!(line(&buffer, 8), "    street");
    assert_eq!(line(&buffer, 9), "    number      0");
    assert_eq!(fg(&buffer, 0, 0), CellColor::Yellow);
    assert_eq!(fg(&buffer, 0, 1), CellColor::Reset);
    assert_eq!(fg(&buffer, 0, 2), CellColor::Reset);
    assert_eq!(fg(&buffer, 0, 4), CellColor::Reset);
    assert_eq!(fg(&buffer, 0, 5), CellColor::Reset);
}

#[test]
fn user_form_renders_typed_text_and_moved_focus() {
    let mut form = UserForm::new();
    for c in "Ann".chars() {
        assert!(form.input(Input::plain(Key::Char(c))));
    }
    assert!(form.input(Input::plain(Key::Down)));
    assert!(form.input(Input::plain(Key::Down)));
    assert!(form.input(Input::plain(Key::Right)));
    let mut buffer = screen(40, 16);
    form.render(rect(0, 0, 40, 16), &mut buffer, true);
    assert_eq!(line(&buffer, 0), "name        Ann");
    assert_eq!(line(&buffer, 1), "age         0");
    assert_eq!(line(&buffer, 2), "> role:");
    assert_eq!(line(&buffer, 3), "    >[Guest]");
    assert_eq!(line(&buffer, 4), "      > name");
    assert_eq!(line(&buffer, 5), "      cool");
    assert_eq!(line(&buffer, 6), "      whatever");
    assert_eq!(line(&buffer, 7), "email");
    assert_eq!(line(&buffer, 8), "address:");
    assert_eq!(fg(&buffer, 0, 0), CellColor::Reset);
    assert_eq!(fg(&buffer, 0, 2), CellColor::Yellow);
    assert_eq!(fg(&buffer, 6, 4), CellColor::Yellow);
    assert_eq!(fg(&buffer, 6, 5), CellColor::Reset);
}

#[test]
fn rendering_twice_gives_the_same_cells() {
    let mut form = UserForm::new();
    assert!(form.input(Input::plain(Key::Char('x'))));
    let mut first = screen(40, 12);
    form.render(rect(0, 0, 40, 12), &mut first, true);
    let mut second = screen(40, 12);
    form.render(rect(0, 0, 40, 12), &mut second, true);
    assert_eq!(first, second);
    form.render(rect(0, 0, 40, 12), &mut second, true);
    assert_eq!(first, second);
}

#[test]
fn rendering_beyond_the_buffer_is_cut_off() {
    let form = UserForm::new();
    let mut buffer = screen(8, 3);
    form.render(rect(0, 0, 40, 12), &mut buffer, true);
    assert_eq!(buffer.area, ratatui::layout::Rect::new(0, 0, 8, 3));
    assert_eq!(line(&buffer, 0), "> name");
    assert_eq!(line(&buffer, 1), "age");
    assert_eq!(line(&buffer, 2), "role:");

    let mut buffer = screen(8, 3);
    form.render(rect(20, 20, 40, 12), &mut buffer, true);
    assert_eq!(line(&buffer, 0), "");

    let mut buffer = screen(8, 3);
    form.render(rect(0, 0, 0, 0), &mut buffer, true);
    assert_eq!(line(&buffer, 0), "");
}

#[test]
fn clip_keeps_the_shared_cells() {
    assert_eq!(rect(2, 2, 10, 10).clip(rect(0, 0, 5, 5)), rect(2, 2, 3, 3));
    assert_eq!(rect(1, 1, 2, 2).clip(rect(0, 0, 5, 5)), rect(1, 1, 2, 2));
    assert_eq!(rect(9, 9, 2, 2).clip(rect(0, 0, 5, 5)).width, 0);
    assert_eq!(rect(9, 9, 2, 2).clip(rect(0, 0, 5, 5)).height, 0);
    assert_eq!(rect(65530, 0, 100, 1).clip(rect(0, 0, 65535, 1)), rect(65530, 0, 5, 1));
}

#[test]
fn heights_add_up() {
    assert_eq!(WhateverForm::new().form_height(), 2);
    assert_eq!(RoleAdminForm::new().form_height(), 1);
    assert_eq!(RoleUserForm::new().form_height(), 1);
    assert_eq!(RoleGuestForm::new().form_height(), 4);
    assert_eq!(AddressForm::new().form_height(), 5);
    let mut role = RoleForm::new();
    assert_eq!(role.form_height(), 2);
    role.selected_variant = 1;
    assert_eq!(role.form_height(), 5);
    role.selected_variant = 2;
    assert_eq!(role.form_height(), 2);
    role.selected_variant = 9;
    assert_eq!(role.form_height(), 2);
    let mut user = UserForm::new();
    assert_eq!(user.form_height(), 11);
    assert_eq!(
        user.form_height(),
        1 + 1 + user.role.form_height() + 1 + user.address.form_height() + 1
    );
    user.role.selected_variant = 1;
    assert_eq!(user.form_height(), 14);
}

#[test]
fn text_too_long_to_scroll_is_not_drawn() {
    let short = vec!["ab".to_string()];
    assert!(is_scrollable(&short, rect(0, 0, 10, 1)));
    assert!(is_scrollable(&Vec::new(), rect(0, 0, 65535, 32767)));
    assert!(!is_scrollable(&Vec::new(), rect(0, 0, 10, 32768)));
    assert!(!is_scrollable(&short, rect(0, 0, 10, 65535)));
    assert!(is_scrollable(&short, rect(0, 0, 65532, 32766)));
    assert!(!is_scrollable(&short, rect(0, 0, 65533, 1)));
    let long = vec!["x".repeat(65530)];
    assert!(is_scrollable(&long, rect(0, 0, 4, 1)));
    assert!(!is_scrollable(&long, rect(0, 0, 5, 1)));
    assert!(is_scrollable(&vec!["x".repeat(65534)], rect(0, 0, 0, 1)));
    assert!(!is_scrollable(&vec!["x".repeat(65535)], rect(0, 0, 0, 1)));
    // characters count, not bytes
    let wide = vec!["é".repeat(40000)];
    assert!(is_scrollable(&wide, rect(0, 0, 10, 1)));

    let mut field: Filtext<usize> = Filtext::new();
    assert!(field.input(Input::plain(Key::Char('x'))));
    field.validate_input = true;
    assert!(!field.settle(long, true));
    assert_eq!(field.value_string().len(), 65530);
    let plan = vec![Paint::Field { area: rect(0, 0, 8, 1), editor: &field.input }];
    let mut buffer = screen(8, 1);
    paint(&plan, &mut buffer);
    assert_eq!(line(&buffer, 0), "");

    let mut field: Filtext<usize> = Filtext::new();
    assert!(field.input(Input::plain(Key::Char('7'))));
    let plan = vec![Paint::Field { area: rect(0, 0, 8, 1), editor: &field.input }];
    paint(&plan, &mut buffer);
    assert_eq!(line(&buffer, 0), "07");
}

#[test]
fn row_constraints_ask_for_each_height() {
    assert_eq!(row_constraints(&Vec::new()), Vec::new());
    assert_eq!(
        row_constraints(&vec![1, 5, 0]),
        vec![Constraint::Length(1), Constraint::Length(5), Constraint::Length(0)]
    );
    assert_eq!(strip_and_rest(12), vec![Constraint::Length(12), Constraint::Min(0)]);
    assert_eq!(
        rows_of(rect(1, 2, 10, 9), &vec![1, 5, 2]),
        vec![rect(1, 2, 10, 1), rect(1, 3, 10, 5), rect(1, 8, 10, 2)]
    );
    assert!(rows_of(rect(1, 2, 10, 9), &Vec::new()).is_empty());
}

#[test]
fn labels_are_prefixed_when_highlighted() {
    assert_eq!(scalar_label_text("age", true), "> age");
    assert_eq!(scalar_label_text("age", false), "age");
    assert_eq!(nested_label_text("role", true), "> role:");
    assert_eq!(nested_label_text("role", false), "role:");
    assert_eq!(variant_header_text("Guest", true), ">[Guest]");
    assert_eq!(variant_header_text("Guest", false), "[Guest]");
    assert_eq!(highlight_color(true), Some(Color::Yellow));
    assert_eq!(highlight_color(false), None);
    let label = nested_label_paint(rect(1, 2, 3, 4), "role", true);
    assert_eq!(labels(&vec![label]), vec![(rect(1, 2, 3, 4), "> role:".to_string(), Some(Color::Yellow))]);
    let header = variant_header_paint(rect(1, 2, 3, 4), "User", true);
    assert_eq!(labels(&vec![header]), vec![(rect(1, 2, 3, 4), ">[User]".to_string(), None)]);
}

fn inside(part: Rect, area: Rect) -> bool {
    part.width == 0
        || part.height == 0
        || (area.x <= part.x
            && part.x as u32 + part.width as u32 <= area.x as u32 + area.width as u32
            && area.y <= part.y
            && part.y as u32 + part.height as u32 <= area.y as u32 + area.height as u32)
}

fn areas(plan: &Vec<Paint<'_>>) -> Vec<Rect> {
    plan.iter()
        .map(|paint| match paint {
            Paint::Label { area, .. } => *area,
            Paint::Field { area, .. } => *area,
        })
        .collect()
}

#[test]
fn layout_stays_within_its_area() {
    let mut form = UserForm::new();
    form.role.selected_variant = 1;
    for area in [
        rect(0, 0, 40, 20),
        rect(5, 3, 7, 2),
        rect(10, 10, 1, 1),
        rect(0, 0, 0, 0),
        rect(65530, 65530, 5, 5),
        rect(65535, 65535, 40, 20),
        rect(0, 0, 65535, 65535),
    ] {
        let plan = form.layout(area, true);
        assert_eq!(plan.len(), 22);
        for part in areas(&plan) {
            assert!(inside(part, area), "{:?} in {:?}", part, area);
        }
    }
}

#[test]
fn split_parts_are_cut_to_the_area() {
    let parts = split_within(Direction::Vertical, &strip_and_rest(3), rect(2, 2, 10, 2));
    assert_eq!(parts, vec![rect(2, 2, 10, 2), rect(2, 4, 10, 0)]);
    let parts = split_within(Direction::Horizontal, &strip_and_rest(3), rect(2, 2, 10, 2));
    assert_eq!(parts, vec![rect(2, 2, 3, 2), rect(5, 2, 7, 2)]);
    let (head, body) = head_and_body(rect(0, 0, 20, 5), 4);
    assert_eq!(head, rect(0, 0, 20, 1));
    assert_eq!(body, rect(4, 1, 16, 4));
    let plan = plan_of(nested_label_paint(rect(0, 0, 5, 1), "a", false));
    assert_eq!(labels(&plan), vec![(rect(0, 0, 5, 1), "a:".to_string(), None)]);
    let mut plan = plan;
    append_plan(&mut plan, plan_of(variant_header_paint(rect(1, 1, 2, 1), "B", false)), rect(1, 1, 2, 1), rect(0, 0, 5, 5));
    assert_eq!(
        labels(&plan),
        vec![(rect(0, 0, 5, 1), "a:".to_string(), None), (rect(1, 1, 2, 1), "[B]".to_string(), None)]
    );
}

fn filled(width: u16, height: u16) -> Buffer {
    let mut buffer = screen(width, height);
    for y in 0..height {
        for x in 0..width {
            let cell = buffer.cell_mut((x, y)).unwrap();
            cell.set_symbol("#");
            cell.fg = CellColor::Red;
            cell.bg = CellColor::Blue;
        }
    }
    buffer
}

fn same_outside(before: &Buffer, after: &Buffer, area: Rect) -> bool {
    let right = area.x as u32 + area.width as u32;
    let bottom = area.y as u32 + area.height as u32;
    for y in 0..before.area.height {
        for x in 0..before.area.width {
            let within = area.x <= x && (x as u32) < right && area.y <= y && (y as u32) < bottom;
            if !within && before.cell((x, y)) != after.cell((x, y)) {
                return false;
            }
        }
    }
    true
}

#[test]
fn rendering_leaves_cells_outside_the_area_alone() {
    let mut form = UserForm::new();
    for c in "a long name that does not fit the field".chars() {
        assert!(form.input(Input::plain(Key::Char(c))));
    }
    form.role.selected_variant = 1;
    for area in [rect(3, 2, 20, 6), rect(0, 0, 30, 15), rect(10, 4, 5, 1), rect(25, 10, 40, 40), rect(4, 4, 0, 0)] {
        let before = filled(30, 15);
        let mut after = before.clone();
        form.render(area, &mut after, true);
        assert_eq!(after.area, before.area);
        assert!(same_outside(&before, &after, area), "{:?}", area);
    }
    // and something was drawn inside
    let before = filled(30, 15);
    let mut after = before.clone();
    form.render(rect(3, 2, 20, 6), &mut after, true);
    assert_ne!(before, after);
    assert_eq!(after.cell((3, 2)).unwrap().symbol(), ">");
    assert_eq!(after.cell((2, 2)).unwrap().symbol(), "#");
}

#[test]
fn painting_leaves_uncovered_cells_alone() {
    let mut field: Filtext<String> = Filtext::new();
    for c in "abcdefghijklmnop".chars() {
        assert!(field.input(Input::plain(Key::Char(c))));
    }
    let before = filled(12, 4);

    let mut after = before.clone();
    paint(&Vec::new(), &mut after);
    assert_eq!(before, after);

    let label_area = rect(2, 1, 4, 1);
    let mut after = before.clone();
    paint(&vec![Paint::Label { area: label_area, text: "much too long".to_string(), fg: Some(Color::Yellow) }], &mut after);
    assert!(same_outside(&before, &after, label_area));
    assert_eq!(after.cell((2, 1)).unwrap().symbol(), "m");
    assert_eq!(after.cell((5, 1)).unwrap().symbol(), "h");
    assert_eq!(after.cell((6, 1)).unwrap().symbol(), "#");

    let field_area = rect(3, 2, 5, 1);
    let mut after = before.clone();
    paint(&vec![Paint::Field { area: field_area, editor: &field.input }], &mut after);
    assert!(same_outside(&before, &after, field_area));
    assert_ne!(before, after);

    // twice, as the field is scrolled by now
    paint(&vec![Paint::Field { area: field_area, editor: &field.input }], &mut after);
    assert!(same_outside(&before, &after, field_area));
}

#[test]
fn forms_without_fields_leave_the_buffer_alone() {
    let before = filled(10, 3);
    let mut after = before.clone();
    RoleAdminForm::new().render(rect(0, 0, 10, 3), &mut after, true);
    assert_eq!(before, after);
    RoleUserForm::new().render(rect(2, 1, 3, 1), &mut after, false);
    assert_eq!(before, after);
}

#[test]
fn parts_keep_the_extent_across_the_split() {
    for area in [rect(2, 3, 10, 7), rect(0, 0, 1, 1), rect(5, 5, 0, 9), rect(5, 5, 9, 0), rect(65000, 65000, 400, 400)] {
        for part in split_within(Direction::Vertical, &row_constraints(&vec![1, 2, 50]), area) {
            assert_eq!(part.x, area.x);
            assert_eq!(part.x.saturating_add(part.width), area.x.saturating_add(area.width));
        }
        for part in split_within(Direction::Horizontal, &strip_and_rest(12), area) {
            assert_eq!(part.y, area.y);
            assert_eq!(part.y.saturating_add(part.height), area.y.saturating_add(area.height));
        }
        let (head, _body) = head_and_body(area, 4);
        assert_eq!(head.x, area.x);
        assert_eq!(head.x.saturating_add(head.width), area.x.saturating_add(area.width));
    }
    let form = WhateverForm::new();
    let plan = form.layout(rect(2, 3, 30, 4), true);
    assert_eq!(areas(&plan), vec![rect(2, 3, 12, 1), rect(14, 3, 18, 1)]);
}

#[test]
fn a_line_of_all_the_columns_is_not_drawn_in_no_columns() {
    let mut field: Filtext<usize> = Filtext::new();
    assert!(field.input(Input::plain(Key::Char('x'))));
    field.validate_input = true;
    assert!(!field.settle(vec!["x".repeat(65535)], true));
    assert!(!field.input(Input::plain(Key::End)));
    let mut buffer = screen(8, 2);
    let before = buffer.clone();
    paint(&vec![Paint::Field { area: rect(3, 1, 0, 1), editor: &field.input }], &mut buffer);
    paint(&vec![Paint::Field { area: rect(0, 0, 8, 1), editor: &field.input }], &mut buffer);
    assert_eq!(before, buffer);
}

#[test]
fn a_field_is_not_drawn_in_an_area_too_high_to_page() {
    let mut field: Filtext<String> = Filtext::new();
    assert!(field.input(Input::plain(Key::Char('a'))));
    let mut buffer = Buffer::empty(ratatui::layout::Rect::new(0, 0, 1, 32768));
    let before = buffer.clone();
    paint(&vec![Paint::Field { area: rect(0, 0, 1, 32768), editor: &field.input }], &mut buffer);
    assert_eq!(before, buffer);
    assert!(!field.input(Input::plain(Key::PageUp)));
    assert!(!field.input(Input::plain(Key::PageDown)));
    assert_eq!(field.value_string(), "a");
    let mut buffer = Buffer::empty(ratatui::layout::Rect::new(0, 0, 1, 32767));
    paint(&vec![Paint::Field { area: rect(0, 0, 1, 32767), editor: &field.input }], &mut buffer);
    assert!(!field.input(Input::plain(Key::PageUp)));
    assert!(!field.input(Input::plain(Key::PageDown)));
    assert_eq!(field.value_string(), "a");
}

#[test]
fn nested_layout_puts_the_label_first_and_indents_the_form() {
    let form = WhateverForm::new();
    let plan = form.layout_nested(rect(2, 3, 30, 4), "whatever", true);
    assert_eq!(
        labels(&plan),
        vec![
            (rect(2, 3, 30, 1), "> whatever:".to_string(), Some(Color::Yellow)),
            (rect(6, 4, 12, 1), "> foo".to_string(), Some(Color::Yellow)),
        ]
    );
    assert_eq!(fields(&plan), vec![rect(18, 4, 14, 1)]);
    let address = AddressForm::new();
    let plan = address.layout_nested(rect(0, 0, 40, 6), "address", false);
    assert_eq!(
        areas(&plan),
        vec![
            rect(0, 0, 40, 1),
            rect(4, 1, 36, 1),
            rect(8, 2, 12, 1),
            rect(20, 2, 20, 1),
            rect(4, 3, 12, 1),
            rect(16, 3, 24, 1),
            rect(4, 4, 12, 1),
            rect(16, 4, 24, 1),
        ]
    );
    let mut role = RoleForm::new();
    role.selected_variant = 1;
    let plan = role.layout_nested(rect(0, 0, 40, 6), "role", true);
    assert_eq!(plan.len(), 8);
    assert_eq!(areas(&plan)[0], rect(0, 0, 40, 1));
    assert_eq!(areas(&plan)[1], rect(4, 1, 36, 1));
    assert_eq!(areas(&plan)[2], rect(6, 2, 12, 1));
    assert_eq!(areas(&plan)[3], rect(18, 2, 22, 1));
}

#[test]
fn a_fresh_user_form_is_drawn_row_by_row() {
    let form = UserForm::new();
    let mut buffer = screen(40, 10);
    form.render(rect(0, 0, 40, 10), &mut buffer, true);
    assert!(line(&buffer, 0).starts_with("> name"));
    assert_eq!(fg(&buffer, 0, 0), CellColor::Yellow);
    assert!(line(&buffer, 1).starts_with("age"));
    assert_eq!(fg(&buffer, 0, 1), CellColor::Reset);
    assert!(line(&buffer, 5).starts_with("address:"));
    assert_eq!(fg(&buffer, 0, 5), CellColor::Reset);
    assert_eq!(buffer.cell((4, 6)).unwrap().symbol(), "w");
    assert_ne!(fg(&buffer, 4, 6), CellColor::Yellow);
    assert_eq!(buffer.cell((4, 8)).unwrap().symbol(), "s");
    assert_eq!(buffer.cell((4, 3)).unwrap().symbol(), "[");
}

#[test]
fn union_header_takes_the_first_line_and_the_variant_an_indent_of_two() {
    let mut form = RoleForm::new();
    for (variant, name) in [(0, "Admin"), (1, "Guest"), (2, "User")] {
        form.selected_variant = variant;
        for focused in [false, true] {
            let mut buffer = screen(30, 6);
            form.render(rect(0, 0, 30, 6), &mut buffer, focused);
            let header = if focused { format!(">[{}]", name) } else { format!("[{}]", name) };
            assert_eq!(line(&buffer, 0), header);
            if variant == 1 {
                assert_eq!(line(&buffer, 1), if focused { "  > name" } else { "  name" });
                assert_eq!(line(&buffer, 2), "  cool");
                assert_eq!(line(&buffer, 3), "  whatever");
            } else {
                assert_eq!(line(&buffer, 1), "");
            }
            assert_eq!(line(&buffer, 4), "");
        }
    }
}

#[test]
fn painting_in_an_area_is_painting() {
    let form = WhateverForm::new();
    let plan = form.layout(rect(1, 1, 20, 2), true);
    let mut one = filled(24, 4);
    let mut two = one.clone();
    paint(&plan, &mut one);
    paint_in(&plan, &mut two, rect(1, 1, 20, 2));
    assert_eq!(one, two);
}
