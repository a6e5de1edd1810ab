use reformy::address::{Address, AddressForm};
use reformy::email::Email;
use reformy::filtext::Filtext;
use reformy::key::{Input, Key};
use reformy::role::{Role, RoleForm, RoleGuestForm};
use reformy::user::{User, UserForm};
use reformy::whatever::Whatever;

fn ch(c: char) -> Input {
    Input::plain(Key::Char(c))
}

fn key(k: Key) -> Input {
    Input::plain(k)
}

fn type_into_guest(form: &mut RoleGuestForm, text: &str) {
    for c in text.chars() {
        assert!(form.input(ch(c)));
    }
}

#[test]
fn flat_record_happy_path() {
    let mut form = UserForm::new();
    for c in "Alice".chars() {
        assert!(form.input(ch(c)));
    }
    assert!(form.input(key(Key::Down)));
    assert!(form.input(ch('3')));
    assert!(form.input(ch('0')));
    assert_eq!(form.name.value(), Some("Alice".to_string()));
    assert_eq!(form.age.value(), Some(30));
    // the e-mail address is still missing
    assert_eq!(form.build(), None);
    for _ in 0..2 {
        assert!(form.input(key(Key::Down)));
    }
    assert_eq!(form.selected, 3);
    assert!(form.input(ch('@')));
    let built = form.build().unwrap();
    assert_eq!(built.name, "Alice");
    assert_eq!(built.age, 30);
}

#[test]
fn flat_record_of_text_and_number_builds() {
    let mut form = AddressForm::new();
    assert!(form.input(key(Key::Down)));
    assert_eq!(form.selected, 1);
    for c in "Alice".chars() {
        assert!(form.input(ch(c)));
    }
    assert!(form.input(key(Key::Down)));
    assert_eq!(form.selected, 2);
    assert!(form.input(ch('3')));
    assert!(form.input(ch('0')));
    assert_eq!(
        form.build(),
        Some(Address { whatever: Whatever { foo: String::new() }, street: "Alice".to_string(), number: 30 })
    );
}

#[test]
fn record_with_validation_failure() {
    let mut form = UserForm::new();
    // down to the e-mail field
    assert!(form.input(key(Key::Down)));
    assert!(form.input(key(Key::Down)));
    assert!(form.input(key(Key::Down)));
    assert_eq!(form.selected, 3);
    for c in "abc".chars() {
        assert!(form.input(ch(c)));
    }
    assert_eq!(form.email.value_string(), "abc");
    assert_eq!(form.email.value(), None);
    // back up to the age
    assert!(form.input(key(Key::Up)));
    // the nested role form takes neither Up nor Down
    assert_eq!(form.selected, 2);
    assert!(form.input(key(Key::Up)));
    assert_eq!(form.selected, 1);
    assert!(form.input(ch('x')));
    assert_eq!(form.age.value(), None);
    assert_eq!(form.build(), None);
}

#[test]
fn variant_cycling_unit_variants() {
    let mut form = RoleForm::new();
    assert_eq!(form.selected_variant, 0);
    assert_eq!(form.build(), Some(Role::Admin));
    assert!(form.input(key(Key::Right)));
    assert_eq!(form.selected_variant, 1);
    assert!(form.input(key(Key::Right)));
    assert_eq!(form.selected_variant, 2);
    assert!(!form.input(key(Key::Right)));
    assert_eq!(form.selected_variant, 2);
    assert_eq!(form.build(), Some(Role::User));
    assert_eq!(form.build(), Some(Role::default()));
}

#[test]
fn variant_with_record_payload() {
    let mut form = RoleForm::new();
    assert!(form.input(key(Key::Right)));
    assert!(form.input(ch('n')));
    assert!(form.input(key(Key::Down)));
    assert!(form.input(ch('c')));
    assert!(form.input(key(Key::Down)));
    assert!(form.input(ch('w')));
    assert_eq!(
        form.build(),
        Some(Role::Guest { name: "n".to_string(), cool: "c".to_string(), whatever: "w".to_string() })
    );
}

#[test]
fn nested_record_descent() {
    let mut form = UserForm::new();
    for _ in 0..4 {
        assert!(form.input(key(Key::Down)));
    }
    assert_eq!(form.selected, 4);
    // inside the address: past the nested form to the street
    assert!(form.input(key(Key::Down)));
    assert_eq!(form.selected, 4);
    assert_eq!(form.address.selected, 1);
    for c in "Main".chars() {
        assert!(form.input(ch(c)));
    }
    assert!(form.input(key(Key::Down)));
    assert_eq!(form.address.selected, 2);
    assert!(form.input(ch('1')));
    assert!(form.input(ch('2')));
    assert_eq!(
        form.address.build(),
        Some(Address { whatever: Whatever { foo: String::new() }, street: "Main".to_string(), number: 12 })
    );
}

#[test]
fn mixed_nesting() {
    let mut form = UserForm::new();
    for c in "Bob".chars() {
        assert!(form.input(ch(c)));
    }
    // Left and Right do not reach the role while a text field has the focus
    assert!(!form.input(key(Key::Right)));
    assert_eq!(form.role.selected_variant, 0);
    assert!(form.input(key(Key::Down)));
    assert!(form.input(ch('4')));
    assert!(form.input(ch('2')));
    assert!(form.input(key(Key::Down)));
    assert_eq!(form.selected, 2);
    // now the role is the innermost focused component
    assert!(form.input(key(Key::Right)));
    assert_eq!(form.role.selected_variant, 1);
    assert!(form.input(ch('g')));
    // Down is taken by the guest record inside the role
    assert!(form.input(key(Key::Down)));
    assert_eq!(form.selected, 2);
    assert_eq!(form.role.guest.selected, 1);
    assert!(form.input(key(Key::Down)));
    assert_eq!(form.role.guest.selected, 2);
    // at the guest's last field Down falls through to the user form
    assert!(form.input(key(Key::Down)));
    assert_eq!(form.selected, 3);
    for c in "b@x".chars() {
        assert!(form.input(ch(c)));
    }
    assert!(form.input(key(Key::Down)));
    assert_eq!(form.selected, 4);
    assert!(form.input(ch('f')));
    assert!(form.input(key(Key::Down)));
    for c in "Elm".chars() {
        assert!(form.input(ch(c)));
    }
    assert!(form.input(key(Key::Down)));
    assert!(form.input(ch('7')));
    // at the very last field Down is left unused
    assert!(!form.input(key(Key::Down)));
    assert_eq!(
        form.build(),
        Some(User {
            name: "Bob".to_string(),
            age: 42,
            role: Role::Guest { name: "g".to_string(), cool: String::new(), whatever: String::new() },
            email: Email("b@x".to_string()),
            address: Address { whatever: Whatever { foo: "f".to_string() }, street: "Elm".to_string(), number: 7 },
        })
    );
}

#[test]
fn guest_form_types_in_order() {
    let mut form = RoleGuestForm::new();
    type_into_guest(&mut form, "ab");
    assert_eq!(form.name.value_string(), "ab");
    assert_eq!(form.cool.value_string(), "");
}

#[test]
fn fresh_fields_show_their_defaults() {
    assert_eq!(Filtext::<String>::new().value_string(), "");
    assert_eq!(Filtext::<usize>::new().value_string(), "0");
    assert_eq!(Filtext::<Email>::new().value_string(), "");
    assert_eq!(Filtext::<String>::new().value(), Some(String::new()));
    assert_eq!(Filtext::<usize>::new().value(), Some(0));
    assert_eq!(Filtext::<Email>::new().value(), None);
}
