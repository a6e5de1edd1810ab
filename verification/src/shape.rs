//! From the shape of a data type to the plan of its form.
//!
//! A declared record gets a record form with one child for each field, in the
//! order of the fields: a text field for a scalar, the form of the field's own
//! type for a field marked as nested. A declared union gets a union form with
//! one slot for each variant, in the order of the variants: nothing for a
//! unit variant, a single text field for a variant with one nameless payload,
//! a record form for a variant with named fields. Other shapes are rejected.
//!
//! The plan names every form type that has to exist and says what each holds;
//! whoever emits the code follows it.

use vstd::prelude::*;

verus! {

/// A field as it is declared: its name, the text of its type, and whether it
/// is marked as nested.
#[derive(Debug, PartialEq)]
pub struct FieldDecl {
    pub name: String,
    pub ty: String,
    pub nested: bool,
}

/// What a declared variant carries.
#[derive(Debug, PartialEq)]
pub enum Payload {
    /// Nothing.
    Unit,
    /// Nameless fields, given by the texts of their types.
    Nameless(Vec<String>),
    /// Named fields.
    Named(Vec<FieldDecl>),
}

/// A variant as it is declared.
#[derive(Debug, PartialEq)]
pub struct VariantDecl {
    pub name: String,
    pub payload: Payload,
}

/// The body of a declared data type.
#[derive(Debug, PartialEq)]
pub enum Body {
    /// A record with named fields.
    Record(Vec<FieldDecl>),
    /// A record without named fields.
    Tuple,
    /// A tagged union.
    Union(Vec<VariantDecl>),
    /// A union without tags.
    Untagged,
}

/// A data type as it is declared.
#[derive(Debug, PartialEq)]
pub struct Decl {
    pub name: String,
    pub body: Body,
}

/// A `FieldDecl` in contracts.
pub struct FieldShape {
    pub name: Seq<char>,
    pub ty: Seq<char>,
    pub nested: bool,
}

/// A `Payload` in contracts.
pub enum PayloadShape {
    Unit,
    Nameless(Seq<Seq<char>>),
    Named(Seq<FieldShape>),
}

/// A `VariantDecl` in contracts.
pub struct VariantShape {
    pub name: Seq<char>,
    pub payload: PayloadShape,
}

/// A `Body` in contracts.
pub enum BodyShape {
    Record(Seq<FieldShape>),
    Tuple,
    Union(Seq<VariantShape>),
    Untagged,
}

/// A `Decl` in contracts.
pub struct Shape {
    pub name: Seq<char>,
    pub body: BodyShape,
}

impl DeepView for FieldDecl {
    type V = FieldShape;

    open spec fn deep_view(&self) -> FieldShape {
        FieldShape { name: self.name@, ty: self.ty@, nested: self.nested }
    }
}

impl DeepView for Payload {
    type V = PayloadShape;

    open spec fn deep_view(&self) -> PayloadShape {
        match self {
            Payload::Unit => PayloadShape::Unit,
            Payload::Nameless(types) => PayloadShape::Nameless(types.deep_view()),
            Payload::Named(fields) => PayloadShape::Named(fields.deep_view()),
        }
    }
}

impl DeepView for VariantDecl {
    type V = VariantShape;

    open spec fn deep_view(&self) -> VariantShape {
        VariantShape { name: self.name@, payload: self.payload.deep_view() }
    }
}

impl DeepView for Body {
    type V = BodyShape;

    open spec fn deep_view(&self) -> BodyShape {
        match self {
            Body::Record(fields) => BodyShape::Record(fields.deep_view()),
            Body::Tuple => BodyShape::Tuple,
            Body::Union(variants) => BodyShape::Union(variants.deep_view()),
            Body::Untagged => BodyShape::Untagged,
        }
    }
}

impl DeepView for Decl {
    type V = Shape;

    open spec fn deep_view(&self) -> Shape {
        Shape { name: self.name@, body: self.body.deep_view() }
    }
}

/// A child of a record form.
#[derive(Debug, PartialEq)]
pub enum Child {
    /// A text field that edits a scalar of type `ty`.
    Leaf { name: String, ty: String },
    /// The form named `form`, nested under the field's label.
    Nested { name: String, form: String },
}

/// The plan of a record form: the type it is named, the type it builds (and
/// the variant of it, where the form is that of a variant), and its children
/// in order.
#[derive(Debug, PartialEq)]
pub struct RecordPlan {
    pub form: String,
    pub target: String,
    pub variant: Option<String>,
    pub children: Vec<Child>,
}

/// The slot of a variant in a union form.
#[derive(Debug, PartialEq)]
pub enum Slot {
    /// A unit variant: the slot holds nothing.
    Unit { name: String },
    /// A variant with one nameless payload of type `ty`: the form named
    /// `form` holds one text field for it, labelled `value`.
    Single { name: String, form: String, ty: String },
    /// A variant with named fields: a record form.
    Record { name: String, record: RecordPlan },
}

/// The plan of a union form: the type it is named, the type it builds, and
/// one slot for each variant in order.
#[derive(Debug, PartialEq)]
pub struct UnionPlan {
    pub form: String,
    pub target: String,
    pub slots: Vec<Slot>,
}

/// The plan of the form of a data type.
#[derive(Debug, PartialEq)]
pub enum FormPlan {
    Record(RecordPlan),
    Union(UnionPlan),
}

/// Why a data type gets no form.
#[derive(Clone, Copy, Debug, PartialEq, Eq)]
pub enum ShapeError {
    /// The record's fields have no names.
    NamelessFields,
    /// The union has no tags.
    Untagged,
    /// The variant at this index has no or several nameless payloads.
    UnsupportedPayload { variant: usize },
}

/// A `Child` in contracts.
pub enum ChildSpec {
    Leaf { name: Seq<char>, ty: Seq<char> },
    Nested { name: Seq<char>, form: Seq<char> },
}

/// A `RecordPlan` in contracts.
pub struct RecordSpec {
    pub form: Seq<char>,
    pub target: Seq<char>,
    pub variant: Option<Seq<char>>,
    pub children: Seq<ChildSpec>,
}

/// A `Slot` in contracts.
pub enum SlotSpec {
    Unit { name: Seq<char> },
    Single { name: Seq<char>, form: Seq<char>, ty: Seq<char> },
    Record { name: Seq<char>, record: RecordSpec },
}

/// A `UnionPlan` in contracts.
pub struct UnionSpec {
    pub form: Seq<char>,
    pub target: Seq<char>,
    pub slots: Seq<SlotSpec>,
}

/// A `FormPlan` in contracts.
pub enum PlanSpec {
    Record(RecordSpec),
    Union(UnionSpec),
}

impl DeepView for Child {
    type V = ChildSpec;

    open spec fn deep_view(&self) -> ChildSpec {
        match self {
            Child::Leaf { name, ty } => ChildSpec::Leaf { name: name@, ty: ty@ },
            Child::Nested { name, form } => ChildSpec::Nested { name: name@, form: form@ },
        }
    }
}

impl DeepView for RecordPlan {
    type V = RecordSpec;

    open spec fn deep_view(&self) -> RecordSpec {
        RecordSpec {
            form: self.form@,
            target: self.target@,
            variant: self.variant.deep_view(),
            children: self.children.deep_view(),
        }
    }
}

impl DeepView for Slot {
    type V = SlotSpec;

    open spec fn deep_view(&self) -> SlotSpec {
        match self {
            Slot::Unit { name } => SlotSpec::Unit { name: name@ },
            Slot::Single { name, form, ty } => SlotSpec::Single {
                name: name@,
                form: form@,
                ty: ty@,
            },
            Slot::Record { name, record } => SlotSpec::Record {
                name: name@,
                record: record.deep_view(),
            },
        }
    }
}

impl DeepView for UnionPlan {
    type V = UnionSpec;

    open spec fn deep_view(&self) -> UnionSpec {
        UnionSpec { form: self.form@, target: self.target@, slots: self.slots.deep_view() }
    }
}

impl DeepView for FormPlan {
    type V = PlanSpec;

    open spec fn deep_view(&self) -> PlanSpec {
        match self {
            FormPlan::Record(record) => PlanSpec::Record(record.deep_view()),
            FormPlan::Union(union) => PlanSpec::Union(union.deep_view()),
        }
    }
}

/// `text` without its spaces.
pub open spec fn unspaced(text: Seq<char>) -> Seq<char> {
    text.filter(|c: char| c != ' ')
}

/// The name of the form of `target`, or of its variant `variant`: the names
/// one after the other, and `Form`.
pub open spec fn form_name(target: Seq<char>, variant: Option<Seq<char>>) -> Seq<char> {
    match variant {
        Some(variant) => target + variant + "Form"@,
        None => target + "Form"@,
    }
}

/// The name of the form of a nested field's type: the text of the type
/// without its spaces, and `Form`.
pub open spec fn nested_form_name(ty: Seq<char>) -> Seq<char> {
    unspaced(ty) + "Form"@
}

/// The child a field gets.
pub open spec fn child_of(field: FieldShape) -> ChildSpec {
    if field.nested {
        ChildSpec::Nested { name: field.name, form: nested_form_name(field.ty) }
    } else {
        ChildSpec::Leaf { name: field.name, ty: field.ty }
    }
}

/// The record form of the given fields.
pub open spec fn record_of(
    target: Seq<char>,
    variant: Option<Seq<char>>,
    fields: Seq<FieldShape>,
) -> RecordSpec {
    RecordSpec {
        form: form_name(target, variant),
        target,
        variant,
        children: Seq::new(fields.len(), |i: int| child_of(fields[i])),
    }
}

/// Whether a variant can have a slot: all but those with no or several
/// nameless payloads.
pub open spec fn supported(variant: VariantShape) -> bool {
    match variant.payload {
        PayloadShape::Nameless(types) => types.len() == 1,
        _ => true,
    }
}

/// The record form that holds the only payload of a variant: one text field
/// for a scalar of type `ty`, labelled `value`.
pub open spec fn single_of(target: Seq<char>, form: Seq<char>, ty: Seq<char>) -> RecordSpec {
    RecordSpec {
        form,
        target,
        variant: None,
        children: seq![ChildSpec::Leaf { name: "value"@, ty }],
    }
}

/// The slot a supported variant gets.
pub open spec fn slot_of(target: Seq<char>, variant: VariantShape) -> SlotSpec {
    match variant.payload {
        PayloadShape::Unit => SlotSpec::Unit { name: variant.name },
        PayloadShape::Nameless(types) => SlotSpec::Single {
            name: variant.name,
            form: form_name(target, Some(variant.name)),
            ty: types[0],
        },
        PayloadShape::Named(fields) => SlotSpec::Record {
            name: variant.name,
            record: record_of(target, Some(variant.name), fields),
        },
    }
}

/// The number of lines a slot takes when its variant is selected: none for a
/// unit variant, one for a single payload, one for each field of a record.
pub open spec fn slot_height(slot: SlotSpec) -> nat {
    match slot {
        SlotSpec::Unit { .. } => 0,
        SlotSpec::Single { .. } => 1,
        SlotSpec::Record { record, .. } => record.children.len(),
    }
}

/// Whether `index` is the first variant that cannot have a slot.
pub open spec fn first_unsupported(variants: Seq<VariantShape>, index: int) -> bool {
    &&& 0 <= index < variants.len()
    &&& !supported(variants[index])
    &&& forall|j: int| 0 <= j < index ==> supported(#[trigger] variants[j])
}

/// Whether every variant can have a slot.
pub open spec fn all_supported(variants: Seq<VariantShape>) -> bool {
    forall|j: int| 0 <= j < variants.len() ==> supported(#[trigger] variants[j])
}

/// Whether `plan` is the plan of the form of `shape`, or the reason why it
/// gets none.
pub open spec fn plans(shape: Shape, plan: Result<PlanSpec, ShapeError>) -> bool {
    match shape.body {
        BodyShape::Record(fields) => plan == Ok::<PlanSpec, ShapeError>(
            PlanSpec::Record(record_of(shape.name, None, fields)),
        ),
        BodyShape::Tuple => plan == Err::<PlanSpec, ShapeError>(ShapeError::NamelessFields),
        BodyShape::Untagged => plan == Err::<PlanSpec, ShapeError>(ShapeError::Untagged),
        BodyShape::Union(variants) => match plan {
            Ok(found) => all_supported(variants) && found == PlanSpec::Union(
                UnionSpec {
                    form: form_name(shape.name, None),
                    target: shape.name,
                    slots: Seq::new(variants.len(), |i: int| slot_of(shape.name, variants[i])),
                },
            ),
            Err(ShapeError::UnsupportedPayload { variant }) => first_unsupported(
                variants,
                variant as int,
            ),
            Err(_) => false,
        },
    }
}

/// `str::replace` of a space by nothing: std removes every space and keeps
/// the other characters in order.
#[verifier::external_body]
pub(crate) fn remove_spaces(text: &str) -> (found: String)
    ensures
        found@ == unspaced(text@),
{
    text.replace(' ', "")
}

/// Builds the name of a form.
pub fn form_name_text(target: &str, variant: Option<&str>) -> (name: String)
    ensures
        name@ == form_name(
            target@,
            match variant {
                Some(v) => Some(v@),
                None => None,
            },
        ),
{
    let mut name = target.to_owned();
    match variant {
        Some(variant) => {
            name.append(variant);
        },
        None => {},
    }
    name.append("Form");
    name
}

/// Builds the name of the form of a nested field's type.
pub fn nested_form_name_text(ty: &str) -> (name: String)
    ensures
        name@ == nested_form_name(ty@),
{
    let mut name = remove_spaces(ty);
    name.append("Form");
    name
}

/// Whether a field is marked as nested: one of its attributes is `form` with
/// the argument `nested`. Each attribute is given by its name and the text of
/// its argument.
pub fn is_nested_field(attributes: &Vec<(String, String)>) -> (nested: bool)
    ensures
        nested == exists|i: int|
            0 <= i < attributes@.len() && (#[trigger] attributes@[i]).0@ == "form"@
                && attributes@[i].1@ == "nested"@,
{
    let form = "form".to_owned();
    let nested = "nested".to_owned();
    let mut i: usize = 0;
    while i < attributes.len()
        invariant
            i <= attributes.len(),
            form@ == "form"@,
            nested@ == "nested"@,
            forall|j: int|
                0 <= j < i ==> !((#[trigger] attributes@[j]).0@ == "form"@ && attributes@[j].1@
                    == "nested"@),
        decreases attributes.len() - i,
    {
        if attributes[i].0 == form && attributes[i].1 == nested {
            return true;
        }
        i += 1;
    }
    false
}

impl Child {
    /// The child a field gets: a text field, or the form of the field's type
    /// where the field is marked as nested.
    pub fn of(field: &FieldDecl) -> (child: Child)
        ensures
            child.deep_view() == child_of(field.deep_view()),
    {
        if field.nested {
            Child::Nested {
                name: field.name.clone(),
                form: nested_form_name_text(field.ty.as_str()),
            }
        } else {
            Child::Leaf { name: field.name.clone(), ty: field.ty.clone() }
        }
    }
}

impl RecordPlan {
    /// The record form of the given fields: one child for each field, in the
    /// order of the fields.
    pub fn of(target: &str, variant: Option<&str>, fields: &Vec<FieldDecl>) -> (plan: RecordPlan)
        ensures
            plan.deep_view() == record_of(
                target@,
                match variant {
                    Some(v) => Some(v@),
                    None => None,
                },
                fields.deep_view(),
            ),
    {
        let mut children: Vec<Child> = Vec::new();
        let mut i: usize = 0;
        while i < fields.len()
            invariant
                i <= fields.len(),
                children@.len() == i,
                forall|j: int|
                    0 <= j < i ==> (#[trigger] children@[j]).deep_view() == child_of(
                        fields@[j].deep_view(),
                    ),
            decreases fields.len() - i,
        {
            children.push(Child::of(&fields[i]));
            i += 1;
        }
        let plan = RecordPlan {
            form: form_name_text(target, variant),
            target: target.to_owned(),
            variant: match variant {
                Some(v) => Some(v.to_owned()),
                None => None,
            },
            children,
        };
        assert(plan.children.deep_view() =~= Seq::new(
            fields.deep_view().len(),
            |i: int| child_of(fields.deep_view()[i]),
        ));
        plan
    }
}

impl RecordPlan {
    /// The record form named `form` that holds the only payload of a variant
    /// of `target`: one text field for a scalar of type `ty`, labelled
    /// `value`.
    pub fn single(target: &str, form: &str, ty: &str) -> (plan: RecordPlan)
        ensures
            plan.deep_view() == single_of(target@, form@, ty@),
    {
        let mut children: Vec<Child> = Vec::new();
        children.push(Child::Leaf { name: "value".to_owned(), ty: ty.to_owned() });
        let plan = RecordPlan {
            form: form.to_owned(),
            target: target.to_owned(),
            variant: None,
            children,
        };
        assert(plan.children.deep_view() =~= seq![ChildSpec::Leaf { name: "value"@, ty: ty@ }]);
        plan
    }
}

impl Slot {
    /// The slot of a variant, or `None` for a variant that cannot have one.
    pub fn of(target: &str, variant: &VariantDecl) -> (slot: Option<Slot>)
        ensures
            match slot {
                Some(slot) => supported(variant.deep_view()) && slot.deep_view() == slot_of(
                    target@,
                    variant.deep_view(),
                ),
                None => !supported(variant.deep_view()),
            },
    {
        match &variant.payload {
            Payload::Unit => Some(Slot::Unit { name: variant.name.clone() }),
            Payload::Nameless(types) => {
                if types.len() == 1 {
                    Some(
                        Slot::Single {
                            name: variant.name.clone(),
                            form: form_name_text(target, Some(variant.name.as_str())),
                            ty: types[0].clone(),
                        },
                    )
                } else {
                    None
                }
            },
            Payload::Named(fields) => Some(
                Slot::Record {
                    name: variant.name.clone(),
                    record: RecordPlan::of(target, Some(variant.name.as_str()), fields),
                },
            ),
        }
    }

    /// The number of lines the slot takes when its variant is selected.
    pub fn height(&self) -> (height: usize)
        ensures
            height == slot_height(self.deep_view()),
    {
        match self {
            Slot::Unit { .. } => 0,
            Slot::Single { .. } => 1,
            Slot::Record { record, .. } => record.children.len(),
        }
    }
}

impl FormPlan {
    /// The plan of the form of a declared data type. A record with named
    /// fields gets a record form and a tagged union a union form. A record
    /// without named fields and a union without tags are rejected, and so is
    /// a union with a variant of no or several nameless payloads: the error
    /// names the first such variant.
    pub fn of(decl: &Decl) -> (plan: Result<FormPlan, ShapeError>)
        ensures
            plans(
                decl.deep_view(),
                match plan {
                    Ok(found) => Ok(found.deep_view()),
                    Err(error) => Err(error),
                },
            ),
    {
        match &decl.body {
            Body::Record(fields) => Ok(
                FormPlan::Record(RecordPlan::of(decl.name.as_str(), None, fields)),
            ),
            Body::Tuple => Err(ShapeError::NamelessFields),
            Body::Untagged => Err(ShapeError::Untagged),
            Body::Union(variants) => {
                let mut slots: Vec<Slot> = Vec::new();
                let mut i: usize = 0;
                while i < variants.len()
                    invariant
                        i <= variants.len(),
                        slots@.len() == i,
                        decl.deep_view().body == BodyShape::Union(variants.deep_view()),
                        forall|j: int|
                            0 <= j < i ==> supported(#[trigger] variants.deep_view()[j]),
                        forall|j: int|
                            0 <= j < i ==> (#[trigger] slots@[j]).deep_view() == slot_of(
                                decl.name@,
                                variants@[j].deep_view(),
                            ),
                    decreases variants.len() - i,
                {
                    match Slot::of(decl.name.as_str(), &variants[i]) {
                        Some(slot) => {
                            slots.push(slot);
                        },
                        None => {
                            assert(variants.deep_view()[i as int] == variants@[i as int].deep_view());
                            return Err(ShapeError::UnsupportedPayload { variant: i });
                        },
                    }
                    assert(variants.deep_view()[i as int] == variants@[i as int].deep_view());
                    i += 1;
                }
                let union = UnionPlan {
                    form: form_name_text(decl.name.as_str(), None),
                    target: decl.name.clone(),
                    slots,
                };
                assert(union.slots.deep_view() =~= Seq::new(
                    variants.deep_view().len(),
                    |i: int| slot_of(decl.name@, variants.deep_view()[i]),
                ));
                Ok(FormPlan::Union(union))
            },
        }
    }
}

/// A record form has one child for each field, in the order of the fields,
/// and each child carries its field's name.
pub proof fn lemma_children_follow_fields(
    target: Seq<char>,
    variant: Option<Seq<char>>,
    fields: Seq<FieldShape>,
    i: int,
)
    requires
        0 <= i < fields.len(),
    ensures
        record_of(target, variant, fields).children.len() == fields.len(),
        record_of(target, variant, fields).children[i] == child_of(fields[i]),
        match record_of(target, variant, fields).children[i] {
            ChildSpec::Leaf { name, ty } => !fields[i].nested && name == fields[i].name && ty
                == fields[i].ty,
            ChildSpec::Nested { name, form } => fields[i].nested && name == fields[i].name,
        },
{
}

/// The slot of a record variant is as high as the variant has fields.
pub proof fn lemma_record_slot_height(target: Seq<char>, variant: VariantShape)
    requires
        variant.payload is Named,
    ensures
        slot_height(slot_of(target, variant)) == variant.payload->Named_0.len(),
{
}

} // verus!
