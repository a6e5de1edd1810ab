use reformy::address::{Address, AddressForm};
use reformy::email::Email;
use reformy::focus::{settle_record, settle_variant};
use reformy::key::{Input, Key};
use reformy::role::{Role, RoleAdminForm, RoleForm, RoleGuestForm, RoleUserForm};
use reformy::user::{User, UserForm};
use reformy::whatever::{Whatever, WhateverForm};

fn ch(c: char) -> Input {
    Input::plain(Key::Char(c))
}

fn key(k: Key) -> Input {
    Input::plain(k)
}

#[test]
fn fresh_forms_start_at_the_top() {
    assert_eq!(UserForm::new().selected, 0);
    assert_eq!(AddressForm::new().selected, 0);
    assert_eq!(WhateverForm::new().selected, 0);
    assert_eq!(RoleGuestForm::new().selected, 0);
    assert_eq!(RoleAdminForm::new().selected, 0);
    assert_eq!(RoleUserForm::new().selected, 0);
    assert_eq!(RoleForm::new().selected_variant, 0);
    assert_eq!(User::form().selected, 0);
    assert_eq!(Address::form().selected, 0);
    assert_eq!(Whatever::form().selected, 0);
    assert_eq!(Role::form().selected_variant, 0);
    let user = User::form();
    assert_eq!(user.name.value_string(), "");
    assert_eq!(user.age.value_string(), "0");
    assert_eq!(user.email.value_string(), "");
    assert_eq!(user.address.street.value_string(), "");
    assert_eq!(user.address.number.value_string(), "0");
    assert_eq!(user.address.whatever.foo.value_string(), "");
    assert_eq!(user.role.guest.name.value_string(), "");
}

#[test]
fn defaults_are_empty_and_zero() {
    assert_eq!(Whatever::default(), Whatever { foo: String::new() });
    assert_eq!(
        Address::default(),
        Address { whatever: Whatever { foo: String::new() }, street: String::new(), number: 0 }
    );
    assert_eq!(Role::default(), Role::User);
    assert_eq!(
        User::default(),
        User {
            name: String::new(),
            age: 0,
            role: Role::User,
            email: Email(String::new()),
            address: Address::default(),
        }
    );
}

#[test]
fn focus_steps_stop_at_both_ends() {
    let mut selected = 0usize;
    assert!(!settle_record(&mut selected, 3, false, Key::Up));
    assert_eq!(selected, 0);
    assert!(settle_record(&mut selected, 3, false, Key::Down));
    assert_eq!(selected, 1);
    assert!(settle_record(&mut selected, 3, false, Key::Down));
    assert_eq!(selected, 2);
    assert!(!settle_record(&mut selected, 3, false, Key::Down));
    assert_eq!(selected, 2);
    assert!(settle_record(&mut selected, 3, false, Key::Up));
    assert_eq!(selected, 1);
    assert!(!settle_record(&mut selected, 3, false, Key::Left));
    assert!(!settle_record(&mut selected, 3, false, Key::Right));
    assert!(!settle_record(&mut selected, 3, false, Key::Char('j')));
    assert!(!settle_record(&mut selected, 3, false, Key::Enter));
    assert_eq!(selected, 1);
    // a key the field used moves nothing
    assert!(settle_record(&mut selected, 3, true, Key::Down));
    assert_eq!(selected, 1);
    // a record without fields has nowhere to go
    let mut none = 0usize;
    assert!(!settle_record(&mut none, 0, false, Key::Down));
    assert!(!settle_record(&mut none, 0, false, Key::Up));
    assert_eq!(none, 0);
    let mut one = 0usize;
    assert!(!settle_record(&mut one, 1, false, Key::Down));
    assert!(!settle_record(&mut one, 1, false, Key::Up));
    assert_eq!(one, 0);
}

#[test]
fn selection_steps_stop_at_both_ends() {
    let mut selected = 0usize;
    assert!(!settle_variant(&mut selected, 3, false, Key::Left));
    assert_eq!(selected, 0);
    assert!(settle_variant(&mut selected, 3, false, Key::Right));
    assert!(settle_variant(&mut selected, 3, false, Key::Right));
    assert_eq!(selected, 2);
    assert!(!settle_variant(&mut selected, 3, false, Key::Right));
    assert_eq!(selected, 2);
    assert!(settle_variant(&mut selected, 3, false, Key::Left));
    assert_eq!(selected, 1);
    assert!(!settle_variant(&mut selected, 3, false, Key::Up));
    assert!(!settle_variant(&mut selected, 3, false, Key::Down));
    assert_eq!(selected, 1);
    assert!(settle_variant(&mut selected, 3, true, Key::Left));
    assert_eq!(selected, 1);
    let mut far = usize::MAX;
    assert!(!settle_variant(&mut far, 3, false, Key::Right));
    assert_eq!(far, usize::MAX);
}

#[test]
fn record_focus_stays_in_bounds_under_any_keys() {
    let mut form = RoleGuestForm::new();
    let keys = [
        Key::Up, Key::Up, Key::Down, Key::Down, Key::Down, Key::Down, Key::Up, Key::Down, Key::Down, Key::Up,
        Key::Up, Key::Up, Key::Up,
    ];
    let used = [false, false, true, true, false, false, true, true, false, true, true, false, false];
    let at = [0, 0, 1, 2, 2, 2, 1, 2, 2, 1, 0, 0, 0];
    for i in 0..keys.len() {
        assert_eq!(form.input(key(keys[i])), used[i]);
        assert_eq!(form.selected, at[i]);
        assert!(form.selected < 3);
    }
    assert_eq!(form.name.value_string(), "");
    assert_eq!(form.cool.value_string(), "");
    assert_eq!(form.whatever.value_string(), "");
}

#[test]
fn variant_selection_stays_in_bounds_under_any_keys() {
    let mut form = RoleForm::new();
    let keys = [Key::Left, Key::Right, Key::Right, Key::Right, Key::Right, Key::Left, Key::Left, Key::Left];
    let used = [false, true, true, false, false, true, true, false];
    let at = [0, 1, 2, 2, 2, 1, 0, 0];
    for i in 0..keys.len() {
        assert_eq!(form.input(key(keys[i])), used[i]);
        assert_eq!(form.selected_variant, at[i]);
    }
}

#[test]
fn unit_variants_use_no_key() {
    let mut form = RoleForm::new();
    assert!(!form.input(ch('a')));
    assert!(!form.input(key(Key::Up)));
    assert!(!form.input(key(Key::Down)));
    assert!(!form.input(key(Key::Enter)));
    assert_eq!(form.selected_variant, 0);
    assert_eq!(form.guest.name.value_string(), "");
}

#[test]
fn forms_without_fields_use_no_key() {
    let mut admin = RoleAdminForm::new();
    let mut user = RoleUserForm::new();
    for k in [Key::Up, Key::Down, Key::Left, Key::Right, Key::Char('a'), Key::Enter] {
        assert!(!admin.input(key(k)));
        assert!(!user.input(key(k)));
        assert_eq!(admin.selected, 0);
        assert_eq!(user.selected, 0);
    }
    assert_eq!(admin.build(), Some(Role::Admin));
    assert_eq!(user.build(), Some(Role::User));
}

#[test]
fn build_needs_every_field() {
    let mut form = AddressForm::new();
    assert_eq!(form.build(), Some(Address::default()));
    assert!(form.input(key(Key::Down)));
    assert!(form.input(key(Key::Down)));
    assert!(form.input(ch('x')));
    assert_eq!(form.whatever.build(), Some(Whatever::default()));
    assert_eq!(form.street.value(), Some(String::new()));
    assert_eq!(form.number.value(), None);
    assert_eq!(form.build(), None);
    assert!(form.input(key(Key::Backspace)));
    assert_eq!(form.number.value(), Some(0));
    assert_eq!(form.build(), Some(Address::default()));
}

#[test]
fn user_build_waits_for_the_email() {
    let mut form = UserForm::new();
    assert_eq!(form.build(), None);
    for _ in 0..3 {
        assert!(form.input(key(Key::Down)));
    }
    assert!(form.input(ch('@')));
    assert_eq!(
        form.build(),
        Some(User {
            name: String::new(),
            age: 0,
            role: Role::Admin,
            email: Email("@".to_string()),
            address: Address::default(),
        })
    );
}

#[test]
fn union_build_reads_the_selected_variant_only() {
    let mut a = RoleForm::new();
    let mut b = RoleForm::new();
    // make the guests differ
    a.selected_variant = 1;
    assert!(a.input(ch('x')));
    a.selected_variant = 0;
    assert_eq!(a.build(), b.build());
    assert_eq!(a.build(), Some(Role::Admin));
    a.selected_variant = 2;
    b.selected_variant = 2;
    assert_eq!(a.build(), b.build());
    a.selected_variant = 1;
    b.selected_variant = 1;
    assert_eq!(a.build(), Some(Role::Guest { name: "x".to_string(), cool: String::new(), whatever: String::new() }));
    assert_eq!(b.build(), Some(Role::Guest { name: String::new(), cool: String::new(), whatever: String::new() }));
    a.selected_variant = 3;
    assert_eq!(a.build(), None);
}

#[test]
fn only_the_focused_field_changes() {
    let mut form = UserForm::new();
    assert!(form.input(ch('a')));
    assert_eq!(form.name.value_string(), "a");
    assert_eq!(form.age.value_string(), "0");
    assert_eq!(form.email.value_string(), "");
    assert_eq!(form.address.street.value_string(), "");
    assert_eq!(form.selected, 0);
    assert!(form.input(key(Key::Down)));
    assert_eq!(form.name.value_string(), "a");
    assert_eq!(form.age.value_string(), "0");
}

#[test]
fn nested_single_field_form_passes_arrows_on() {
    let mut form = AddressForm::new();
    assert_eq!(form.selected, 0);
    assert!(form.input(ch('f')));
    assert_eq!(form.whatever.foo.value_string(), "f");
    assert!(!form.input(key(Key::Up)));
    assert!(form.input(key(Key::Down)));
    assert_eq!(form.selected, 1);
    assert_eq!(form.whatever.selected, 0);
    assert!(form.input(key(Key::Up)));
    assert_eq!(form.selected, 0);
    assert!(!form.input(key(Key::Left)));
    assert!(!form.input(key(Key::Right)));
}

#[test]
fn typed_characters_are_used_by_the_focused_field() {
    let mut whatever = WhateverForm::new();
    assert!(whatever.input(ch('a')));
    assert!(whatever.input(Input { key: Key::Char('B'), ctrl: false, alt: false, shift: true }));
    assert_eq!(whatever.selected, 0);
    assert_eq!(whatever.foo.value_string(), "aB");
    // a validating field may refuse
    let mut address = AddressForm::new();
    address.selected = 2;
    address.number.validate_input = true;
    assert!(!address.input(ch('x')));
    // the restored editor has its cursor before the first character
    assert!(address.input(ch('5')));
    assert_eq!(address.number.value_string(), "50");
    assert_eq!(address.selected, 2);
    // a union with a unit variant selected has no field to take it
    let mut role = RoleForm::new();
    assert!(!role.input(ch('a')));
    role.selected_variant = 1;
    assert!(role.input(ch('a')));
    assert_eq!(role.selected_variant, 1);
    assert_eq!(role.guest.name.value_string(), "a");
}
