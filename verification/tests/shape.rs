use reformy::shape::{
    form_name_text, is_nested_field, nested_form_name_text, Body, Child, Decl, FieldDecl, FormPlan, Payload,
    RecordPlan, ShapeError, Slot, UnionPlan, VariantDecl,
};

fn field(name: &str, ty: &str, nested: bool) -> FieldDecl {
    FieldDecl { name: name.to_string(), ty: ty.to_string(), nested }
}

fn leaf(name: &str, ty: &str) -> Child {
    Child::Leaf { name: name.to_string(), ty: ty.to_string() }
}

fn nested(name: &str, form: &str) -> Child {
    Child::Nested { name: name.to_string(), form: form.to_string() }
}

fn variant(name: &str, payload: Payload) -> VariantDecl {
    VariantDecl { name: name.to_string(), payload }
}

#[test]
fn record_gets_one_child_per_field_in_order() {
    let decl = Decl {
        name: "User".to_string(),
        body: Body::Record(vec![
            field("name", "String", false),
            field("age", "usize", false),
            field("role", "Role", true),
            field("email", "Email", false),
            field("address", "Address", true),
        ]),
    };
    assert_eq!(
        FormPlan::of(&decl),
        Ok(FormPlan::Record(RecordPlan {
            form: "UserForm".to_string(),
            target: "User".to_string(),
            variant: None,
            children: vec![
                leaf("name", "String"),
                leaf("age", "usize"),
                nested("role", "RoleForm"),
                leaf("email", "Email"),
                nested("address", "AddressForm"),
            ],
        }))
    );
}

#[test]
fn record_without_fields_gets_an_empty_form() {
    let decl = Decl { name: "Nothing".to_string(), body: Body::Record(Vec::new()) };
    assert_eq!(
        FormPlan::of(&decl),
        Ok(FormPlan::Record(RecordPlan {
            form: "NothingForm".to_string(),
            target: "Nothing".to_string(),
            variant: None,
            children: Vec::new(),
        }))
    );
}

#[test]
fn union_gets_one_slot_per_variant_in_order() {
    let decl = Decl {
        name: "Role".to_string(),
        body: Body::Union(vec![
            variant("Admin", Payload::Unit),
            variant(
                "Guest",
                Payload::Named(vec![
                    field("name", "String", false),
                    field("cool", "String", false),
                    field("whatever", "String", false),
                ]),
            ),
            variant("User", Payload::Unit),
            variant("Code", Payload::Nameless(vec!["usize".to_string()])),
        ]),
    };
    let plan = FormPlan::of(&decl);
    assert_eq!(
        plan,
        Ok(FormPlan::Union(UnionPlan {
            form: "RoleForm".to_string(),
            target: "Role".to_string(),
            slots: vec![
                Slot::Unit { name: "Admin".to_string() },
                Slot::Record {
                    name: "Guest".to_string(),
                    record: RecordPlan {
                        form: "RoleGuestForm".to_string(),
                        target: "Role".to_string(),
                        variant: Some("Guest".to_string()),
                        children: vec![leaf("name", "String"), leaf("cool", "String"), leaf("whatever", "String")],
                    },
                },
                Slot::Unit { name: "User".to_string() },
                Slot::Single {
                    name: "Code".to_string(),
                    form: "RoleCodeForm".to_string(),
                    ty: "usize".to_string(),
                },
            ],
        }))
    );
    if let Ok(FormPlan::Union(union)) = plan {
        let heights: Vec<usize> = union.slots.iter().map(|slot| slot.height()).collect();
        assert_eq!(heights, vec![0, 3, 0, 1]);
    } else {
        panic!("a union plan was expected");
    }
}

#[test]
fn union_without_variants_gets_an_empty_form() {
    let decl = Decl { name: "Never".to_string(), body: Body::Union(Vec::new()) };
    assert_eq!(
        FormPlan::of(&decl),
        Ok(FormPlan::Union(UnionPlan {
            form: "NeverForm".to_string(),
            target: "Never".to_string(),
            slots: Vec::new(),
        }))
    );
}

#[test]
fn unsupported_shapes_are_rejected() {
    let tuple = Decl { name: "Pair".to_string(), body: Body::Tuple };
    assert_eq!(FormPlan::of(&tuple), Err(ShapeError::NamelessFields));
    let untagged = Decl { name: "Bits".to_string(), body: Body::Untagged };
    assert_eq!(FormPlan::of(&untagged), Err(ShapeError::Untagged));
}

#[test]
fn the_first_unsupported_variant_is_named() {
    let decl = Decl {
        name: "Shape".to_string(),
        body: Body::Union(vec![
            variant("Dot", Payload::Unit),
            variant("Line", Payload::Nameless(vec!["usize".to_string(), "usize".to_string()])),
            variant("Blank", Payload::Nameless(Vec::new())),
        ]),
    };
    assert_eq!(FormPlan::of(&decl), Err(ShapeError::UnsupportedPayload { variant: 1 }));
    let decl = Decl {
        name: "Shape".to_string(),
        body: Body::Union(vec![variant("Dot", Payload::Unit), variant("Blank", Payload::Nameless(Vec::new()))]),
    };
    assert_eq!(FormPlan::of(&decl), Err(ShapeError::UnsupportedPayload { variant: 1 }));
    assert_eq!(Slot::of("Shape", &variant("Blank", Payload::Nameless(Vec::new()))), None);
}

#[test]
fn form_names_are_put_together() {
    assert_eq!(form_name_text("User", None), "UserForm");
    assert_eq!(form_name_text("Role", Some("Guest")), "RoleGuestForm");
    assert_eq!(form_name_text("", None), "Form");
    assert_eq!(nested_form_name_text("Address"), "AddressForm");
    assert_eq!(nested_form_name_text("Vec < u8 >"), "Vec<u8>Form");
    assert_eq!(nested_form_name_text("  a  b  "), "abForm");
    assert_eq!(nested_form_name_text("a\tb"), "a\tbForm");
}

#[test]
fn nested_type_names_lose_their_spaces() {
    assert_eq!(Child::of(&field("inner", "outer :: Inner", true)), nested("inner", "outer::InnerForm"));
    assert_eq!(Child::of(&field("inner", "outer :: Inner", false)), leaf("inner", "outer :: Inner"));
}

#[test]
fn nested_mark_is_the_form_attribute_with_nested() {
    let attr = |name: &str, argument: &str| (name.to_string(), argument.to_string());
    assert!(!is_nested_field(&Vec::new()));
    assert!(is_nested_field(&vec![attr("form", "nested")]));
    assert!(is_nested_field(&vec![attr("doc", "x"), attr("form", "nested")]));
    assert!(!is_nested_field(&vec![attr("form", "flat")]));
    assert!(!is_nested_field(&vec![attr("forms", "nested")]));
    assert!(!is_nested_field(&vec![attr("form", ""), attr("other", "nested")]));
    assert!(!is_nested_field(&vec![attr("nested", "form")]));
}

#[test]
fn single_payload_gets_one_field_labelled_value() {
    assert_eq!(
        RecordPlan::single("Role", "RoleCodeForm", "usize"),
        RecordPlan {
            form: "RoleCodeForm".to_string(),
            target: "Role".to_string(),
            variant: None,
            children: vec![leaf("value", "usize")],
        }
    );
}
