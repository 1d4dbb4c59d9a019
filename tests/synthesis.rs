use surprise_me::{
    impl_surprise, Assign, AssignValue, Data, Expr, FactorShape, FactorTy, Field, FieldFactor,
    Fields, FieldsKind, Lit, Member, Meta, SurpriseFactorImpl, SurpriseImpl, SynthError,
    TypeDecl, Variant, VariantFactor, Weight,
};

fn s(x: &str) -> String {
    x.to_string()
}

fn named(name: &str, ty: &str, attrs: Vec<Meta>) -> Field {
    Field { ident: Some(s(name)), ty: s(ty), attrs }
}

fn positional(ty: &str, attrs: Vec<Meta>) -> Field {
    Field { ident: None, ty: s(ty), attrs }
}

fn int_lit(d: &str) -> Expr {
    Expr::Lit(Lit::Int(s(d)))
}

fn float_lit(t: &str) -> Expr {
    Expr::Lit(Lit::Float(s(t)))
}

fn str_lit(v: &str) -> Expr {
    Expr::Lit(Lit::Str(s(v)))
}

fn set(name: &str, value: Expr) -> Meta {
    Meta::NameValue { path: s(name), value }
}

fn list(name: &str, items: Vec<Meta>) -> Meta {
    Meta::List { path: s(name), nested: Some(items) }
}

fn factor(items: Vec<Meta>) -> Meta {
    list("factor", items)
}

fn custom(name: &str) -> Meta {
    set("factor", str_lit(name))
}

fn weight(value: Expr) -> Meta {
    set("weight", value)
}

fn variant(name: &str, attrs: Vec<Meta>, fields: Fields) -> Variant {
    Variant { ident: s(name), attrs, fields }
}

fn decl(name: &str, attrs: Vec<Meta>, data: Data) -> TypeDecl {
    TypeDecl { ident: s(name), attrs, data }
}

fn derived(ident: Option<&str>, ty: &str) -> FieldFactor {
    FieldFactor { ident: ident.map(s), ty: s(ty), factor: FactorTy::Derived(s(ty)) }
}

fn hand_written(ident: Option<&str>, ty: &str, name: &str) -> FieldFactor {
    FieldFactor { ident: ident.map(s), ty: s(ty), factor: FactorTy::Custom(s(name)) }
}

fn n(name: &str) -> Member {
    Member::Named(s(name))
}

fn assign(chain: Vec<Member>, value: Expr) -> Assign {
    Assign { chain, value: AssignValue::Expr(value) }
}

fn strings(xs: &[&str]) -> Vec<String> {
    xs.iter().map(|x| s(x)).collect()
}

fn synthesized(d: &TypeDecl) -> SurpriseFactorImpl {
    let r: SurpriseImpl = impl_surprise(d).expect("synthesis succeeds");
    assert_eq!(r.name, d.ident);
    assert_eq!(r.factor_name, format!("{}Surprise", d.ident));
    r.factor.expect("a factor is synthesized")
}

fn weights_of(f: &SurpriseFactorImpl) -> Vec<Weight> {
    match &f.shape {
        FactorShape::Enum { weights, .. } => weights.clone(),
        FactorShape::Struct { .. } => panic!("expected an enum factor"),
    }
}

#[test]
fn unit_struct() {
    let d = decl("Unit", vec![], Data::Struct(Fields::Unit));
    let f = synthesized(&d);
    assert_eq!(f.shape, FactorShape::Struct { kind: FieldsKind::Unit, fields: vec![] });
    assert!(f.default_assigns.is_empty());
    assert!(f.default_bounds.is_empty());
}

#[test]
fn tuple_struct() {
    let d = decl(
        "Tuple",
        vec![],
        Data::Struct(Fields::Unnamed(vec![
            positional("u32", vec![]),
            positional("bool", vec![]),
            positional("String", vec![factor(vec![set("max_len", int_lit("10"))])]),
        ])),
    );
    let f = synthesized(&d);
    assert_eq!(
        f.shape,
        FactorShape::Struct {
            kind: FieldsKind::Unnamed,
            fields: vec![derived(None, "u32"), derived(None, "bool"), derived(None, "String")],
        }
    );
    assert_eq!(f.default_assigns, vec![assign(vec![Member::Unnamed(2), n("max_len")], int_lit("10"))]);
    assert_eq!(f.default_bounds, strings(&["u32", "bool", "String"]));
}

#[test]
fn named_struct() {
    let d = decl(
        "Named",
        vec![set("doc", str_lit(" a struct"))],
        Data::Struct(Fields::Named(vec![
            named("a", "bool", vec![factor(vec![set("chance", float_lit("0.2"))])]),
            named("b", "i32", vec![]),
            named("longer_name", "Vec<u8>", vec![factor(vec![set("max_len", int_lit("10"))])]),
        ])),
    );
    let f = synthesized(&d);
    assert_eq!(
        f.shape,
        FactorShape::Struct {
            kind: FieldsKind::Named,
            fields: vec![
                derived(Some("a"), "bool"),
                derived(Some("b"), "i32"),
                derived(Some("longer_name"), "Vec<u8>"),
            ],
        }
    );
    assert_eq!(
        f.default_assigns,
        vec![
            assign(vec![n("a"), n("chance")], float_lit("0.2")),
            assign(vec![n("longer_name"), n("max_len")], int_lit("10")),
        ]
    );
}

#[test]
fn my_enum() {
    let d = decl(
        "MyEnum",
        vec![],
        Data::Enum(vec![
            variant("A", vec![], Fields::Unit),
            variant("B", vec![weight(float_lit("0.1"))], Fields::Unnamed(vec![positional("i8", vec![])])),
            variant(
                "C",
                vec![weight(float_lit("0.4"))],
                Fields::Unnamed(vec![
                    positional("u32", vec![]),
                    positional(
                        "String",
                        vec![factor(vec![
                            set("max_len", int_lit("15")),
                            list("chars", vec![Meta::Path(s("CharSurprise::Unicode"))]),
                        ])],
                    ),
                ]),
            ),
            variant("D", vec![], Fields::Named(vec![named("field", "()", vec![])])),
            variant(
                "E",
                vec![weight(int_lit("1")), set("doc", str_lit(" Variant documentation"))],
                Fields::Named(vec![
                    named("a", "bool", vec![factor(vec![set("chance", float_lit("0.9"))])]),
                    named(
                        "b",
                        "Vec<u8>",
                        vec![factor(vec![set("min_len", int_lit("2")), set("max_len", int_lit("10"))])],
                    ),
                    named("c", "HashMap<u8, Vec<f32>>", vec![]),
                ]),
            ),
            variant("F", vec![], Fields::Named(vec![])),
            variant("G", vec![], Fields::Unnamed(vec![])),
        ]),
    );
    let f = synthesized(&d);
    let expected_weights = vec![
        Weight::Int(0),
        Weight::Float(s("0.1")),
        Weight::Float(s("0.4")),
        Weight::Int(0),
        Weight::Int(1),
        Weight::Int(0),
        Weight::Int(0),
    ];
    let expected_slots = vec![
        VariantFactor { ident: s("B"), kind: FieldsKind::Unnamed, fields: vec![derived(None, "i8")] },
        VariantFactor {
            ident: s("C"),
            kind: FieldsKind::Unnamed,
            fields: vec![derived(None, "u32"), derived(None, "String")],
        },
        VariantFactor {
            ident: s("D"),
            kind: FieldsKind::Named,
            fields: vec![derived(Some("field"), "()")],
        },
        VariantFactor {
            ident: s("E"),
            kind: FieldsKind::Named,
            fields: vec![
                derived(Some("a"), "bool"),
                derived(Some("b"), "Vec<u8>"),
                derived(Some("c"), "HashMap<u8, Vec<f32>>"),
            ],
        },
    ];
    assert_eq!(f.shape, FactorShape::Enum { weights: expected_weights, variants: expected_slots });
    assert_eq!(
        f.default_assigns,
        vec![
            assign(vec![n("C"), Member::Unnamed(1), n("max_len")], int_lit("15")),
            Assign {
                chain: vec![n("C"), Member::Unnamed(1), n("chars")],
                value: AssignValue::Path(s("CharSurprise::Unicode")),
            },
            assign(vec![n("E"), Member::Unnamed(0), n("chance")], float_lit("0.9")),
            assign(vec![n("E"), Member::Unnamed(1), n("min_len")], int_lit("2")),
            assign(vec![n("E"), Member::Unnamed(1), n("max_len")], int_lit("10")),
        ]
    );
    assert_eq!(
        f.default_bounds,
        strings(&["i8", "u32", "String", "()", "bool", "Vec<u8>", "HashMap<u8, Vec<f32>>"])
    );
}

#[test]
fn recursive_tuple_struct() {
    let d = decl(
        "Recursive",
        vec![],
        Data::Struct(Fields::Unnamed(vec![
            positional("bool", vec![]),
            positional("Option<Box<Recursive>>", vec![custom("RecursedSurprise")]),
        ])),
    );
    let f = synthesized(&d);
    assert_eq!(
        f.shape,
        FactorShape::Struct {
            kind: FieldsKind::Unnamed,
            fields: vec![
                derived(None, "bool"),
                hand_written(None, "Option<Box<Recursive>>", "RecursedSurprise"),
            ],
        }
    );
    assert!(f.default_assigns.is_empty());
    assert_eq!(f.default_bounds, strings(&["bool"]));
}

#[test]
fn recursive_named_struct() {
    let d = decl(
        "Recursive",
        vec![],
        Data::Struct(Fields::Named(vec![
            named("other", "bool", vec![]),
            named("inner", "Option<Box<Recursive>>", vec![custom("RecursedSurprise")]),
        ])),
    );
    let f = synthesized(&d);
    assert_eq!(
        f.shape,
        FactorShape::Struct {
            kind: FieldsKind::Named,
            fields: vec![
                derived(Some("other"), "bool"),
                hand_written(Some("inner"), "Option<Box<Recursive>>", "RecursedSurprise"),
            ],
        }
    );
    assert_eq!(f.default_bounds, strings(&["bool"]));
}

#[test]
fn recursive_enum() {
    let d = decl(
        "RecursiveEnum",
        vec![],
        Data::Enum(vec![
            variant(
                "A",
                vec![weight(float_lit("2.0"))],
                Fields::Unnamed(vec![positional("Option<Box<Intermediate>>", vec![])]),
            ),
            variant("B", vec![], Fields::Unit),
            variant(
                "C",
                vec![weight(float_lit("1.0"))],
                Fields::Named(vec![named("direct", "Box<RecursiveEnum>", vec![custom("RecursedEnum")])]),
            ),
            variant(
                "D",
                vec![weight(float_lit("5.0"))],
                Fields::Unnamed(vec![positional("Vec<RecursiveEnum>", vec![custom("RecursedEnum")])]),
            ),
        ]),
    );
    let f = synthesized(&d);
    assert_eq!(
        f.shape,
        FactorShape::Enum {
            weights: vec![
                Weight::Float(s("2.0")),
                Weight::Int(0),
                Weight::Float(s("1.0")),
                Weight::Float(s("5.0")),
            ],
            variants: vec![
                VariantFactor {
                    ident: s("A"),
                    kind: FieldsKind::Unnamed,
                    fields: vec![derived(None, "Option<Box<Intermediate>>")],
                },
                VariantFactor {
                    ident: s("C"),
                    kind: FieldsKind::Named,
                    fields: vec![hand_written(Some("direct"), "Box<RecursiveEnum>", "RecursedEnum")],
                },
                VariantFactor {
                    ident: s("D"),
                    kind: FieldsKind::Unnamed,
                    fields: vec![hand_written(None, "Vec<RecursiveEnum>", "RecursedEnum")],
                },
            ],
        }
    );
    assert_eq!(f.default_bounds, strings(&["Option<Box<Intermediate>>"]));

    let intermediate = decl(
        "Intermediate",
        vec![],
        Data::Struct(Fields::Named(vec![named("inner", "RecursiveEnum", vec![custom("RecursedEnum")])])),
    );
    let g = synthesized(&intermediate);
    assert_eq!(
        g.shape,
        FactorShape::Struct {
            kind: FieldsKind::Named,
            fields: vec![hand_written(Some("inner"), "RecursiveEnum", "RecursedEnum")],
        }
    );
    assert!(g.default_bounds.is_empty());
}

#[test]
fn recursive_custom() {
    let d = decl(
        "Message",
        vec![],
        Data::Struct(Fields::Named(vec![
            named("other", "bool", vec![]),
            named(
                "referenced_message",
                "Option<Box<Message>>",
                vec![custom("RecursedMessageSurprise")],
            ),
        ])),
    );
    let f = synthesized(&d);
    assert_eq!(
        f.shape,
        FactorShape::Struct {
            kind: FieldsKind::Named,
            fields: vec![
                derived(Some("other"), "bool"),
                hand_written(
                    Some("referenced_message"),
                    "Option<Box<Message>>",
                    "RecursedMessageSurprise",
                ),
            ],
        }
    );
}

#[test]
fn lib_generic_struct() {
    let d = decl(
        "GenericStruct",
        vec![],
        Data::Struct(Fields::Named(vec![named("vec", "Vec<T>", vec![]), named("opt", "Option<U>", vec![])])),
    );
    let f = synthesized(&d);
    assert_eq!(
        f.shape,
        FactorShape::Struct {
            kind: FieldsKind::Named,
            fields: vec![derived(Some("vec"), "Vec<T>"), derived(Some("opt"), "Option<U>")],
        }
    );
    assert_eq!(f.default_bounds, strings(&["Vec<T>", "Option<U>"]));
}

#[test]
fn generic_enum() {
    let d = decl(
        "GenericEnum",
        vec![],
        Data::Enum(vec![
            variant("A", vec![], Fields::Unnamed(vec![positional("Vec<T>", vec![])])),
            variant(
                "B",
                vec![],
                Fields::Named(vec![named("a", "Option<U>", vec![]), named("b", "PhantomWrapper<V>", vec![])]),
            ),
        ]),
    );
    let f = synthesized(&d);
    assert_eq!(weights_of(&f), vec![Weight::Int(1), Weight::Int(1)]);
    assert_eq!(f.default_bounds, strings(&["Vec<T>", "Option<U>", "PhantomWrapper<V>"]));

    let wrapper = decl(
        "PhantomWrapper",
        vec![],
        Data::Struct(Fields::Named(vec![named("inner", "PhantomData<T>", vec![])])),
    );
    let g = synthesized(&wrapper);
    assert_eq!(
        g.shape,
        FactorShape::Struct {
            kind: FieldsKind::Named,
            fields: vec![derived(Some("inner"), "PhantomData<T>")],
        }
    );
}

#[test]
fn test_struct() {
    let d = decl(
        "MyStruct",
        vec![],
        Data::Struct(Fields::Named(vec![
            named("a", "u32", vec![]),
            named("b", "bool", vec![]),
            named("c", "String", vec![]),
        ])),
    );
    let f = synthesized(&d);
    assert_eq!(
        f.shape,
        FactorShape::Struct {
            kind: FieldsKind::Named,
            fields: vec![
                derived(Some("a"), "u32"),
                derived(Some("b"), "bool"),
                derived(Some("c"), "String"),
            ],
        }
    );
}

#[test]
fn test_enum() {
    let d = decl(
        "MyEnum",
        vec![],
        Data::Enum(vec![
            variant("A", vec![], Fields::Unit),
            variant("B", vec![], Fields::Unnamed(vec![positional("u32", vec![])])),
            variant(
                "C",
                vec![],
                Fields::Named(vec![named("a", "String", vec![]), named("b", "bool", vec![])]),
            ),
        ]),
    );
    let f = synthesized(&d);
    assert_eq!(
        f.shape,
        FactorShape::Enum {
            weights: vec![Weight::Int(1), Weight::Int(1), Weight::Int(1)],
            variants: vec![
                VariantFactor { ident: s("B"), kind: FieldsKind::Unnamed, fields: vec![derived(None, "u32")] },
                VariantFactor {
                    ident: s("C"),
                    kind: FieldsKind::Named,
                    fields: vec![derived(Some("a"), "String"), derived(Some("b"), "bool")],
                },
            ],
        }
    );
}

#[test]
fn type_level_custom_factor_skips_synthesis() {
    let d = decl(
        "MyStruct",
        vec![custom("RecursedSurprise"), set("doc", str_lit(" docs"))],
        Data::Struct(Fields::Named(vec![named("my_vec", "Vec<MyStruct>", vec![])])),
    );
    let r = impl_surprise(&d).unwrap();
    assert_eq!(r.factor_name, "RecursedSurprise");
    assert_eq!(r.factor, None);
}

#[test]
fn custom_factor_name_is_parsed() {
    let d = decl("T", vec![custom("  Spaced  ")], Data::Struct(Fields::Unit));
    assert_eq!(impl_surprise(&d).unwrap().factor_name, "Spaced");
    let bad = decl("T", vec![custom("not a type")], Data::Struct(Fields::Unit));
    assert_eq!(impl_surprise(&bad), Err(SynthError::InvalidFactorName));
    let keyword = decl("T", vec![custom("match")], Data::Struct(Fields::Unit));
    assert_eq!(impl_surprise(&keyword), Err(SynthError::InvalidFactorName));
}

#[test]
fn custom_factor_must_be_a_string() {
    let d = decl("T", vec![set("factor", int_lit("3"))], Data::Struct(Fields::Unit));
    assert_eq!(impl_surprise(&d), Err(SynthError::CustomFactorNotString));
}

#[test]
fn weight_on_type_is_rejected() {
    let d = decl("T", vec![weight(int_lit("1"))], Data::Struct(Fields::Unit));
    assert_eq!(impl_surprise(&d), Err(SynthError::WeightOnType));
}

#[test]
fn type_level_directive_is_rejected() {
    let d = decl("T", vec![factor(vec![set("a", int_lit("1"))])], Data::Struct(Fields::Unit));
    assert_eq!(impl_surprise(&d), Err(SynthError::ExpectedNameValue));
}

#[test]
fn variant_attribute_needs_name_value() {
    let d = decl(
        "E",
        vec![],
        Data::Enum(vec![variant("A", vec![list("weight", vec![set("x", int_lit("2"))])], Fields::Unit)]),
    );
    assert_eq!(impl_surprise(&d), Err(SynthError::ExpectedNameValue));
    let bare = decl("E", vec![], Data::Enum(vec![variant("A", vec![Meta::Path(s("weight"))], Fields::Unit)]));
    assert_eq!(impl_surprise(&bare), Err(SynthError::ExpectedNameValue));
}

#[test]
fn directive_beside_field_custom_factor_is_rejected() {
    let d = decl(
        "T",
        vec![],
        Data::Struct(Fields::Named(vec![named(
            "inner",
            "Option<Box<T>>",
            vec![custom("Recursed"), factor(vec![set("depth", int_lit("1"))])],
        )])),
    );
    assert_eq!(impl_surprise(&d), Err(SynthError::DirectiveWithCustomFactor));
}

#[test]
fn field_attribute_beside_type_custom_factor_is_rejected() {
    let d = decl(
        "T",
        vec![custom("Recursed")],
        Data::Struct(Fields::Named(vec![named("a", "u8", vec![factor(vec![set("min", int_lit("1"))])])])),
    );
    assert_eq!(impl_surprise(&d), Err(SynthError::DirectiveWithCustomFactor));
}

#[test]
fn only_factor_on_fields() {
    let d = decl(
        "T",
        vec![],
        Data::Struct(Fields::Unnamed(vec![positional("u8", vec![weight(int_lit("1"))])])),
    );
    assert_eq!(impl_surprise(&d), Err(SynthError::OnlyFactorOnFields));
}

#[test]
fn bare_factor_on_field_is_rejected() {
    let d = decl(
        "T",
        vec![],
        Data::Struct(Fields::Unnamed(vec![positional("u8", vec![Meta::Path(s("factor"))])])),
    );
    assert_eq!(impl_surprise(&d), Err(SynthError::ExpectedFactorValueOrList));
}

#[test]
fn malformed_directives_are_rejected() {
    let unparsed = decl(
        "T",
        vec![],
        Data::Struct(Fields::Unnamed(vec![positional(
            "u8",
            vec![Meta::List { path: s("factor"), nested: None }],
        )])),
    );
    assert_eq!(impl_surprise(&unparsed), Err(SynthError::MalformedDirective));
    let qualified = decl(
        "T",
        vec![],
        Data::Struct(Fields::Unnamed(vec![positional(
            "Vec<u8>",
            vec![factor(vec![list("a::b", vec![set("min", int_lit("1"))])])],
        )])),
    );
    assert_eq!(impl_surprise(&qualified), Err(SynthError::MalformedDirective));
}

#[test]
fn weight_must_be_numeric() {
    let d = decl("E", vec![], Data::Enum(vec![variant("A", vec![weight(str_lit("2"))], Fields::Unit)]));
    assert_eq!(impl_surprise(&d), Err(SynthError::WeightNotNumeric));
    let e = decl(
        "E",
        vec![],
        Data::Enum(vec![variant("A", vec![weight(Expr::Other(s("1 + 1")))], Fields::Unit)]),
    );
    assert_eq!(impl_surprise(&e), Err(SynthError::WeightNotNumeric));
}

#[test]
fn integer_weight_must_fit_in_i64() {
    let ok = decl(
        "E",
        vec![],
        Data::Enum(vec![variant("A", vec![weight(int_lit("9223372036854775807"))], Fields::Unit)]),
    );
    assert_eq!(weights_of(&synthesized(&ok)), vec![Weight::Int(9223372036854775807)]);
    let too_big = decl(
        "E",
        vec![],
        Data::Enum(vec![variant("A", vec![weight(int_lit("9223372036854775808"))], Fields::Unit)]),
    );
    assert_eq!(impl_surprise(&too_big), Err(SynthError::WeightOutOfRange));
}

#[test]
fn union_has_no_factor() {
    let d = decl("U", vec![], Data::Union);
    assert_eq!(impl_surprise(&d), Err(SynthError::Union));
}

#[test]
fn union_with_custom_factor_is_accepted() {
    let d = decl("U", vec![custom("USurprise")], Data::Union);
    assert_eq!(impl_surprise(&d).unwrap().factor, None);
}

#[test]
fn uniform_weights_without_declarations() {
    let d = decl(
        "E",
        vec![],
        Data::Enum(vec![
            variant("A", vec![], Fields::Unit),
            variant("B", vec![], Fields::Unit),
            variant("C", vec![], Fields::Unit),
        ]),
    );
    let f = synthesized(&d);
    assert_eq!(weights_of(&f), vec![Weight::Int(1), Weight::Int(1), Weight::Int(1)]);
    assert_eq!(f.shape, FactorShape::Enum { weights: weights_of(&f), variants: vec![] });
}

#[test]
fn one_declared_weight_zeroes_the_rest() {
    let d = decl(
        "E",
        vec![],
        Data::Enum(vec![
            variant("A", vec![weight(float_lit("2.0"))], Fields::Unit),
            variant("B", vec![], Fields::Unit),
            variant("C", vec![], Fields::Unit),
        ]),
    );
    assert_eq!(
        weights_of(&synthesized(&d)),
        vec![Weight::Float(s("2.0")), Weight::Int(0), Weight::Int(0)]
    );
}

#[test]
fn all_zero_weights_are_rejected() {
    let d = decl(
        "E",
        vec![],
        Data::Enum(vec![
            variant("A", vec![weight(int_lit("0"))], Fields::Unit),
            variant("B", vec![weight(float_lit("0.0"))], Fields::Unit),
            variant("C", vec![weight(float_lit("0e5"))], Fields::Unit),
        ]),
    );
    assert_eq!(impl_surprise(&d), Err(SynthError::ZeroWeights));
    let undeclared = decl(
        "E",
        vec![],
        Data::Enum(vec![
            variant("A", vec![weight(int_lit("0"))], Fields::Unit),
            variant("B", vec![], Fields::Unit),
        ]),
    );
    assert_eq!(impl_surprise(&undeclared), Err(SynthError::ZeroWeights));
}

#[test]
fn small_float_weight_counts_as_nonzero() {
    let d = decl(
        "E",
        vec![],
        Data::Enum(vec![
            variant("A", vec![weight(float_lit("0.005"))], Fields::Unit),
            variant("B", vec![weight(int_lit("0"))], Fields::Unit),
        ]),
    );
    assert_eq!(weights_of(&synthesized(&d)), vec![Weight::Float(s("0.005")), Weight::Int(0)]);
}

#[test]
fn nested_override_paths() {
    let d = decl(
        "MyStruct",
        vec![],
        Data::Struct(Fields::Named(vec![named(
            "my_field",
            "Vec<Option<u32>>",
            vec![
                factor(vec![set("max_len", int_lit("5"))]),
                factor(vec![list(
                    "items",
                    vec![
                        set("chance", float_lit("0.3")),
                        list("inner", vec![set("min", int_lit("10")), set("max", int_lit("20"))]),
                    ],
                )]),
            ],
        )])),
    );
    let f = synthesized(&d);
    assert_eq!(
        f.default_assigns,
        vec![
            assign(vec![n("my_field"), n("max_len")], int_lit("5")),
            assign(vec![n("my_field"), n("items"), n("chance")], float_lit("0.3")),
            assign(vec![n("my_field"), n("items"), n("inner"), n("min")], int_lit("10")),
            assign(vec![n("my_field"), n("items"), n("inner"), n("max")], int_lit("20")),
        ]
    );
}

#[test]
fn later_overrides_follow_earlier_ones() {
    let d = decl(
        "T",
        vec![],
        Data::Struct(Fields::Unnamed(vec![positional(
            "String",
            vec![factor(vec![set("max_len", int_lit("5")), set("max_len", int_lit("7"))])],
        )])),
    );
    let f = synthesized(&d);
    assert_eq!(
        f.default_assigns,
        vec![
            assign(vec![Member::Unnamed(0), n("max_len")], int_lit("5")),
            assign(vec![Member::Unnamed(0), n("max_len")], int_lit("7")),
        ]
    );
}

#[test]
fn custom_factor_slot_has_no_internals() {
    let d = decl(
        "T",
        vec![],
        Data::Enum(vec![variant(
            "A",
            vec![],
            Fields::Unnamed(vec![positional("Vec<T>", vec![custom("VecOfT")]), positional("u8", vec![])]),
        )]),
    );
    let f = synthesized(&d);
    assert_eq!(
        f.shape,
        FactorShape::Enum {
            weights: vec![Weight::Int(1)],
            variants: vec![VariantFactor {
                ident: s("A"),
                kind: FieldsKind::Unnamed,
                fields: vec![hand_written(None, "Vec<T>", "VecOfT"), derived(None, "u8")],
            }],
        }
    );
    assert!(f.default_assigns.is_empty());
    assert_eq!(f.default_bounds, strings(&["u8"]));
}
