use enum_from_derive::decl::{
    DeclBody, Declaration, EnumVariant, MarkerItem, PayloadType, VariantShape, is_string_type,
};
use enum_from_derive::policy::scan_markers;
use enum_from_derive::synth::{
    DescriptionArm, DisplayArm, ErrorValue, GenError, build_enum_from,
};

fn path(segments: &[&str]) -> PayloadType {
    let mut v: Vec<String> = Vec::new();
    for s in segments {
        v.push(s.to_string());
    }
    PayloadType::Path(v)
}

fn variant(name: &str, shape: VariantShape, markers: Vec<MarkerItem>) -> EnumVariant {
    EnumVariant { name: name.to_string(), shape, markers }
}

fn enum_decl(name: &str, generics: Vec<String>, variants: Vec<EnumVariant>) -> Declaration {
    Declaration {
        name: name.to_string(),
        generics,
        body: DeclBody::Enumeration(variants),
    }
}

fn word(w: &str) -> MarkerItem {
    MarkerItem::Word(w.to_string())
}

fn desc(value: &str) -> MarkerItem {
    MarkerItem::Text("desc".to_string(), value.to_string())
}

#[derive(Debug, PartialEq)]
struct TestError;

#[test]
fn compile_test() {
    // The two configurations that must fail the build: a non-enum
    // declaration, and an enum with a two-field variant.
    let not_enum = Declaration {
        name: "Thing".to_string(),
        generics: Vec::new(),
        body: DeclBody::NotEnum,
    };
    let r = build_enum_from(&not_enum);
    assert!(matches!(r, Err(GenError::NotAnEnum(n)) if n == "Thing"));

    let bad = enum_decl(
        "Error",
        Vec::new(),
        vec![variant("Broken", VariantShape::Multi, Vec::new())],
    );
    let r = build_enum_from(&bad);
    assert!(matches!(r, Err(GenError::UnsupportedVariant(n)) if n == "Broken"));
}

#[test]
fn simple() {
    // enum Error { Test(TestError) }
    let d = enum_decl(
        "Error",
        Vec::new(),
        vec![variant(
            "Test",
            VariantShape::Single(path(&["TestError"])),
            Vec::new(),
        )],
    );
    let u = build_enum_from(&d).unwrap();
    assert_eq!(u.conversions, vec![0]);
    assert_eq!(
        u.convert(0, TestError),
        ErrorValue { variant: 0, payload: TestError }
    );
}

#[test]
fn generics() {
    // enum Error<'a, T> where T: Send + 'a { Test(TestError), Other(&'a T) }
    let d = enum_decl(
        "Error",
        vec!["'a".to_string(), "T: Send + 'a".to_string()],
        vec![
            variant("Test", VariantShape::Single(path(&["TestError"])), Vec::new()),
            variant("Other", VariantShape::Single(PayloadType::Opaque), Vec::new()),
        ],
    );
    let u = build_enum_from(&d).unwrap();
    assert_eq!(
        u.convert(0, TestError),
        ErrorValue { variant: 0, payload: TestError }
    );
    assert_eq!(u.convert(1, &42), ErrorValue { variant: 1, payload: &42 });
}

#[test]
fn ignore_multiple_field_variants() {
    // enum Error { Test(TestError), Other(i32, i32) }: the two-field variant
    // aborts generation with a diagnostic naming it.
    let d = enum_decl(
        "Error",
        Vec::new(),
        vec![
            variant("Test", VariantShape::Single(path(&["TestError"])), Vec::new()),
            variant("Other", VariantShape::Multi, Vec::new()),
        ],
    );
    let r = build_enum_from(&d);
    assert!(matches!(r, Err(GenError::UnsupportedVariant(n)) if n == "Other"));
}

#[test]
fn unmarked_enum_defaults() {
    // Unit, text-payload and plain-payload variants without markers.
    let d = enum_decl(
        "Error",
        Vec::new(),
        vec![
            variant("Closed", VariantShape::Unit, Vec::new()),
            variant("Message", VariantShape::Single(path(&["String"])), Vec::new()),
            variant("Inner", VariantShape::Single(path(&["IoError"])), Vec::new()),
        ],
    );
    let u = build_enum_from(&d).unwrap();
    assert_eq!(u.conversions, vec![1, 2]);
    assert_eq!(u.arms.len(), 3);
    assert_eq!(u.arms[0].variant, 0);
    assert!(matches!(u.arms[0].display, DisplayArm::BareName));
    assert!(matches!(u.arms[0].description, DescriptionArm::BareName));
    assert!(!u.arms[0].cause);
    assert_eq!(u.arms[1].variant, 1);
    assert!(matches!(u.arms[1].display, DisplayArm::Payload));
    assert!(matches!(u.arms[1].description, DescriptionArm::PayloadText));
    assert!(!u.arms[1].cause);
    assert_eq!(u.arms[2].variant, 2);
    assert!(matches!(u.arms[2].display, DisplayArm::Payload));
    assert!(matches!(u.arms[2].description, DescriptionArm::PayloadDescription));
    assert!(u.arms[2].cause);
    // One variant has an explicit cause arm, two lack one.
    assert!(u.cause_catchall);
}

#[test]
fn skip_excludes_everything() {
    // A skipped variant appears in no fragment, and the catch-all question is
    // decided over the generated arms alone.
    let d = enum_decl(
        "Error",
        Vec::new(),
        vec![
            variant("Hidden", VariantShape::Single(path(&["TestError"])), vec![word("skip")]),
            variant("Kept", VariantShape::Single(path(&["TestError"])), Vec::new()),
        ],
    );
    let u = build_enum_from(&d).unwrap();
    assert_eq!(u.conversions, vec![1]);
    assert_eq!(u.arms.len(), 1);
    assert_eq!(u.arms[0].variant, 1);
    // Every generated arm carries an explicit cause, so no catch-all.
    assert!(u.arms[0].cause);
    assert!(!u.cause_catchall);
}

#[test]
fn skip_wins_over_other_markers() {
    let d = enum_decl(
        "Error",
        Vec::new(),
        vec![variant(
            "Hidden",
            VariantShape::Unit,
            vec![desc("still hidden"), word("skip"), word("skip_from")],
        )],
    );
    let u = build_enum_from(&d).unwrap();
    assert!(u.conversions.is_empty());
    assert!(u.arms.is_empty());
    assert!(!u.cause_catchall);
}

#[test]
fn skip_applies_after_shape_check() {
    // The shape is validated before the markers are read: even a skipped
    // two-field variant aborts generation.
    let d = enum_decl(
        "Error",
        Vec::new(),
        vec![variant("Broken", VariantShape::Multi, vec![word("skip")])],
    );
    let r = build_enum_from(&d);
    assert!(matches!(r, Err(GenError::UnsupportedVariant(n)) if n == "Broken"));
}

#[test]
fn skip_from_suppresses_only_conversion() {
    let d = enum_decl(
        "Error",
        Vec::new(),
        vec![variant(
            "Inner",
            VariantShape::Single(path(&["IoError"])),
            vec![word("skip_from")],
        )],
    );
    let u = build_enum_from(&d).unwrap();
    assert!(u.conversions.is_empty());
    assert_eq!(u.arms.len(), 1);
    assert_eq!(u.arms[0].variant, 0);
    assert!(matches!(u.arms[0].display, DisplayArm::Payload));
    assert!(matches!(u.arms[0].description, DescriptionArm::PayloadDescription));
    assert!(u.arms[0].cause);
}

#[test]
fn desc_fixes_description_and_display() {
    let d = enum_decl(
        "Error",
        Vec::new(),
        vec![
            variant("Closed", VariantShape::Unit, vec![desc("connection closed")]),
            variant(
                "Inner",
                VariantShape::Single(path(&["IoError"])),
                vec![desc("inner failure")],
            ),
        ],
    );
    let u = build_enum_from(&d).unwrap();
    assert!(matches!(&u.arms[0].display, DisplayArm::DescOnly(s) if s.as_str() == "connection closed"));
    assert!(
        matches!(&u.arms[0].description, DescriptionArm::Literal(s) if s.as_str() == "connection closed")
    );
    assert!(
        matches!(&u.arms[1].display, DisplayArm::DescAndPayload(s) if s.as_str() == "inner failure")
    );
    assert!(matches!(&u.arms[1].description, DescriptionArm::Literal(s) if s.as_str() == "inner failure"));
}

#[test]
fn last_desc_wins() {
    let d = enum_decl(
        "Error",
        Vec::new(),
        vec![variant(
            "Closed",
            VariantShape::Unit,
            vec![desc("first"), desc("second")],
        )],
    );
    let u = build_enum_from(&d).unwrap();
    assert!(matches!(&u.arms[0].description, DescriptionArm::Literal(s) if s.as_str() == "second"));
}

#[test]
fn unknown_markers_are_ignored() {
    let d = enum_decl(
        "Error",
        Vec::new(),
        vec![variant(
            "Inner",
            VariantShape::Single(path(&["IoError"])),
            vec![
                word("frobnicate"),
                MarkerItem::Text("note".to_string(), "ignored".to_string()),
                MarkerItem::Ignored,
            ],
        )],
    );
    let u = build_enum_from(&d).unwrap();
    assert_eq!(u.conversions, vec![0]);
    assert!(matches!(u.arms[0].display, DisplayArm::Payload));
    assert!(matches!(u.arms[0].description, DescriptionArm::PayloadDescription));
    assert!(u.arms[0].cause);
}

#[test]
fn text_payload_never_causes() {
    // A String payload is returned as the description and contributes no
    // cause arm, so the lone arm forces the catch-all.
    let d = enum_decl(
        "Error",
        Vec::new(),
        vec![variant("Message", VariantShape::Single(path(&["String"])), Vec::new())],
    );
    let u = build_enum_from(&d).unwrap();
    assert!(matches!(u.arms[0].description, DescriptionArm::PayloadText));
    assert!(!u.arms[0].cause);
    assert!(u.cause_catchall);
}

#[test]
fn qualified_string_path_is_not_text() {
    // The text check is nominal on a bare single-segment path.
    let d = enum_decl(
        "Error",
        Vec::new(),
        vec![variant(
            "Message",
            VariantShape::Single(path(&["std", "string", "String"])),
            Vec::new(),
        )],
    );
    let u = build_enum_from(&d).unwrap();
    assert!(matches!(u.arms[0].description, DescriptionArm::PayloadDescription));
    assert!(u.arms[0].cause);
}

#[test]
fn all_causes_explicit_omits_catchall() {
    let d = enum_decl(
        "Error",
        Vec::new(),
        vec![
            variant("Io", VariantShape::Single(path(&["IoError"])), Vec::new()),
            variant("Parse", VariantShape::Single(path(&["ParseError"])), Vec::new()),
        ],
    );
    let u = build_enum_from(&d).unwrap();
    assert!(u.arms[0].cause && u.arms[1].cause);
    assert!(!u.cause_catchall);
}

#[test]
fn three_variants_two_descs() {
    // Two variants with distinct desc literals and one unmarked unit variant.
    let d = enum_decl(
        "Error",
        Vec::new(),
        vec![
            variant("Closed", VariantShape::Unit, vec![desc("closed early")]),
            variant(
                "Message",
                VariantShape::Single(path(&["String"])),
                vec![desc("bad message")],
            ),
            variant("Unknown", VariantShape::Unit, Vec::new()),
        ],
    );
    let u = build_enum_from(&d).unwrap();
    assert!(matches!(&u.arms[0].description, DescriptionArm::Literal(s) if s.as_str() == "closed early"));
    assert!(matches!(&u.arms[1].description, DescriptionArm::Literal(s) if s.as_str() == "bad message"));
    assert!(matches!(u.arms[2].description, DescriptionArm::BareName));
    // No variant contributes a cause arm, so the catch-all is present.
    assert!(!u.arms.iter().any(|a| a.cause));
    assert!(u.cause_catchall);
}

#[test]
fn scan_markers_resolves_in_order() {
    let ms = vec![
        word("skip_from"),
        desc("a"),
        word("frobnicate"),
        desc("b"),
        MarkerItem::Ignored,
    ];
    let p = scan_markers(&ms);
    assert!(!p.skip);
    assert!(p.skip_from);
    assert_eq!(p.desc.as_deref(), Some("b"));
}

#[test]
fn string_type_check_is_nominal() {
    assert!(is_string_type(&path(&["String"])));
    assert!(!is_string_type(&path(&["std", "string", "String"])));
    assert!(!is_string_type(&path(&["Str"])));
    assert!(!is_string_type(&PayloadType::Opaque));
}
