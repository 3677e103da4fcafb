use defgen::backend::generate;
use defgen::frontend::{from_slice, Data, DataFile, ErrorKind, Value};
use defgen::expand::expand_expr;
use defgen::frontend::Enum;
use defgen::model::{ModelFile, Model, Type, VecOrOne, Lit};
use defgen::parse::from_str;
use defgen::tool::{Tool, ToolMaterial};

fn file(name: &str, contents: &str) -> DataFile {
    DataFile { name: name.to_string(), contents: contents.to_string() }
}

fn load(files: &[DataFile]) -> Data {
    match from_slice(files) {
        Ok(d) => d,
        Err(e) => panic!("load failed: {:?} in {:?}", kind_name(&e.kind), e.file),
    }
}

fn kind_name(k: &ErrorKind) -> &'static str {
    match k {
        ErrorKind::Parse { .. } => "parse",
        ErrorKind::TypeMismatch => "type mismatch",
        ErrorKind::DuplicateProperty { .. } => "duplicate property",
        ErrorKind::UnknownEnumReference { .. } => "unknown enum reference",
    }
}

fn enum_named<'a>(d: &'a Data, name: &str) -> &'a Enum {
    d.enums
        .iter()
        .find(|e| e.name == name)
        .unwrap_or_else(|| panic!("no enum named {}", name))
}

// ---------------------------------------------------------------------------
// parsing
// ---------------------------------------------------------------------------

#[test]
fn parse_single_enum() {
    let mf = from_str("Enum(name: \"tool\", variants: [\"axe\", \"pickaxe\"])").unwrap();
    match mf {
        ModelFile::Single(Model::Enum { name, variants }) => {
            assert_eq!(name, "tool");
            assert_eq!(variants, vec!["axe".to_string(), "pickaxe".to_string()]);
        }
        _ => panic!("wrong shape"),
    }
}

#[test]
fn parse_multiple_with_property() {
    let text = "[\n  Enum(name: \"a\", variants: [\"x\"]),\n  Property(on: \"a\", name: \"p\", type: u32, mapping: { \"x\": 3 }),\n]";
    let mf = from_str(text).unwrap();
    match mf {
        ModelFile::Multiple(ms) => {
            assert_eq!(ms.len(), 2);
            match &ms[1] {
                Model::Property { on, name, typ, mapping } => {
                    assert_eq!(on, "a");
                    assert_eq!(name, "p");
                    assert!(matches!(typ, Type::U32));
                    assert_eq!(mapping.len(), 1);
                    match &mapping[0] {
                        (VecOrOne::One(k), Lit::Num { text, rounded }) => {
                            assert_eq!(k, "x");
                            assert_eq!(text, "3");
                            assert_eq!(*rounded, 3);
                        }
                        _ => panic!("wrong mapping entry"),
                    }
                }
                _ => panic!("wrong declaration"),
            }
        }
        _ => panic!("wrong shape"),
    }
}

#[test]
fn parse_rejects_garbage() {
    assert!(from_str("Enum(name: \"a\" variants: [])").is_err());
    assert!(from_str("Enumeration(name: \"a\", variants: [])").is_err());
    assert!(from_str("Enum(name: \"a\", variants: []) trailing").is_err());
    assert!(from_str("").is_err());
}

#[test]
fn parse_rejects_unknown_type_tag() {
    let text = "Property(on: \"a\", name: \"p\", type: u16, mapping: {})";
    assert!(from_str(text).is_err());
}

#[test]
fn parse_number_rounding() {
    // Half rounds away from zero; a negative literal clamps to zero for
    // u32; an oversized literal saturates.
    let d = load(&[file(
        "f",
        "[Enum(name: \"a\", variants: [\"x\", \"y\", \"z\"]), Property(on: \"a\", name: \"p\", type: u32, mapping: { \"x\": 8.5, \"y\": -3, \"z\": 99999999999 })]",
    )]);
    let e = enum_named(&d, "a");
    let p = &e.properties[0];
    let get = |k: &str| {
        p.mapping
            .iter()
            .find(|(key, _)| key.as_str() == k)
            .map(|(_, v)| v.dup())
            .unwrap()
    };
    assert!(matches!(get("x"), Value::U32(9)));
    assert!(matches!(get("y"), Value::U32(0)));
    assert!(matches!(get("z"), Value::U32(u32::MAX)));
}

// ---------------------------------------------------------------------------
// aggregation
// ---------------------------------------------------------------------------

#[test]
fn enum_redeclaration_keeps_properties() {
    // Redeclaring an enum overwrites its variant list and grouping tag
    // while its properties keep accumulating.
    let d = load(&[
        file("one", "[Enum(name: \"a\", variants: [\"x\"]), Property(on: \"a\", name: \"p\", type: u32, mapping: { \"x\": 1 })]"),
        file("two", "Enum(name: \"a\", variants: [\"x\", \"y\"])"),
    ]);
    let e = enum_named(&d, "a");
    assert_eq!(e.variants, vec!["x".to_string(), "y".to_string()]);
    assert_eq!(e.file, "two");
    assert_eq!(e.properties.len(), 1);
    assert_eq!(e.properties[0].name, "p");
}

#[test]
fn property_creates_enum_implicitly() {
    let d = load(&[file(
        "one",
        "Property(on: \"ghostly\", name: \"p\", type: u32, mapping: { \"x\": 1 })",
    )]);
    let e = enum_named(&d, "ghostly");
    assert!(e.variants.is_empty());
    assert_eq!(e.properties.len(), 1);
}

#[test]
fn multi_key_shorthand() {
    let d = load(&[file(
        "one",
        "[Enum(name: \"a\", variants: [\"x\", \"y\", \"z\"]), Property(on: \"a\", name: \"p\", type: bool, mapping: { [\"x\", \"y\"]: true, \"z\": false })]",
    )]);
    let e = enum_named(&d, "a");
    let m = &e.properties[0].mapping;
    assert_eq!(m.len(), 3);
    assert_eq!(m[0].0, "x");
    assert_eq!(m[1].0, "y");
    assert_eq!(m[2].0, "z");
    assert!(matches!(m[0].1, Value::Bool(true)));
    assert!(matches!(m[2].1, Value::Bool(false)));
}

#[test]
fn type_mismatch_rejected() {
    let r = from_slice(&[file(
        "one",
        "Property(on: \"a\", name: \"p\", type: string, mapping: { \"x\": 3 })",
    )]);
    let e = r.err().expect("must fail");
    assert!(matches!(e.kind, ErrorKind::TypeMismatch));
    assert_eq!(e.file.as_deref(), Some("one"));
}

#[test]
fn duplicate_property_one_file() {
    let r = from_slice(&[file(
        "one",
        "[Enum(name: \"a\", variants: [\"x\"]), Property(on: \"a\", name: \"p\", type: u32, mapping: { \"x\": 1 }), Property(on: \"a\", name: \"p\", type: u32, mapping: { \"x\": 2 })]",
    )]);
    match r {
        Err(e) => match e.kind {
            ErrorKind::DuplicateProperty { name } => assert_eq!(name, "p"),
            k => panic!("wrong error: {}", kind_name(&k)),
        },
        Ok(_) => panic!("duplicate accepted"),
    }
}

#[test]
fn duplicate_property_across_files_any_order() {
    let decl = "Enum(name: \"a\", variants: [\"x\"])";
    let p1 = "Property(on: \"a\", name: \"p\", type: u32, mapping: { \"x\": 1 })";
    let p2 = "Property(on: \"a\", name: \"p\", type: bool, mapping: { \"x\": true })";
    for (first, second) in [(p1, p2), (p2, p1)] {
        let r = from_slice(&[file("e", decl), file("one", first), file("two", second)]);
        match r {
            Err(e) => {
                assert!(matches!(e.kind, ErrorKind::DuplicateProperty { .. }));
                assert_eq!(e.file.as_deref(), Some("two"));
            }
            Ok(_) => panic!("duplicate accepted"),
        }
    }
}

// ---------------------------------------------------------------------------
// expansion
// ---------------------------------------------------------------------------

#[test]
fn expansion_cartesian_order() {
    // Enum a = [x, y] and b = [p, q]: a template referencing both, in that
    // left-to-right order, expands to four variants with the leftmost
    // placeholder varying slowest.
    let d = load(&[file(
        "one",
        "[Enum(name: \"a\", variants: [\"x\", \"y\"]), Enum(name: \"b\", variants: [\"p\", \"q\"]), Enum(name: \"c\", variants: [\"${a}_${b}\"])]",
    )]);
    let c = enum_named(&d, "c");
    assert_eq!(
        c.variants,
        vec!["x_p".to_string(), "x_q".to_string(), "y_p".to_string(), "y_q".to_string()]
    );
}

#[test]
fn expansion_multiplies_declared_entries() {
    let d = load(&[file(
        "one",
        "[Enum(name: \"a\", variants: [\"x\", \"y\"]), Enum(name: \"c\", variants: [\"plain\", \"with_${a}\"])]",
    )]);
    let c = enum_named(&d, "c");
    assert_eq!(
        c.variants,
        vec!["plain".to_string(), "with_x".to_string(), "with_y".to_string()]
    );
}

#[test]
fn expansion_of_property_keys_and_values() {
    let d = load(&[file(
        "one",
        "[Enum(name: \"a\", variants: [\"x\", \"y\"]), Enum(name: \"c\", variants: [\"c_${a}\"]), Property(on: \"c\", name: \"back\", type: Custom(\"a\"), mapping: { \"c_${a}\": \"${a}\" })]",
    )]);
    let c = enum_named(&d, "c");
    assert_eq!(c.variants, vec!["c_x".to_string(), "c_y".to_string()]);
    let m = &c.properties[0].mapping;
    assert_eq!(m.len(), 2);
    assert_eq!(m[0].0, "c_x");
    assert_eq!(m[1].0, "c_y");
    match (&m[0].1, &m[1].1) {
        (Value::Custom(v0), Value::Custom(v1)) => {
            assert_eq!(v0, "x");
            assert_eq!(v1, "y");
        }
        _ => panic!("values not custom references"),
    }
}

#[test]
fn unknown_reference_rejected() {
    let r = from_slice(&[file("one", "Enum(name: \"c\", variants: [\"${nope}\"])")]);
    match r {
        Err(e) => match e.kind {
            ErrorKind::UnknownEnumReference { name } => assert_eq!(name, "nope"),
            k => panic!("wrong error: {}", kind_name(&k)),
        },
        Ok(_) => panic!("unknown reference accepted"),
    }
}

#[test]
fn expand_expr_literal_dollar_is_text() {
    // `${}` and an unterminated `${` are literal text, not placeholders.
    let d = load(&[file("one", "Enum(name: \"a\", variants: [\"x\"])")]);
    let r = expand_expr("cost_$3_${}_${unterminated", &d).unwrap();
    assert_eq!(r, vec!["cost_$3_${}_${unterminated".to_string()]);
    let r2 = expand_expr("${a}", &d).unwrap();
    assert_eq!(r2, vec!["x".to_string()]);
}

// ---------------------------------------------------------------------------
// generation
// ---------------------------------------------------------------------------

const MARKER: &str = "// This file is @generated\n";

#[test]
fn scenario_exhaustive_dig_multiplier() {
    // An exhaustive f64 property over five variants: a five-variant enum
    // and one total accessor returning exactly the five literals, with no
    // default arm.
    let d = load(&[file(
        "tool",
        "[Enum(name: \"tool_material\", variants: [\"Wood\", \"Stone\", \"Iron\", \"Diamond\", \"Gold\"]), Property(on: \"tool_material\", name: \"dig_multiplier\", type: f64, mapping: { \"Diamond\": 8.0, \"Gold\": 12.0, \"Iron\": 6.0, \"Stone\": 4.0, \"Wood\": 2.0 })]",
    )]);
    let units = generate(&d);
    assert_eq!(units.len(), 2);
    assert_eq!(units[0].name, "tool");
    let mut expected = String::from(MARKER);
    expected.push_str("#[derive(Copy, Clone, Debug, PartialEq, Eq, Hash, PartialOrd, Ord, ToPrimitive, FromPrimitive)]\n");
    expected.push_str("pub enum ToolMaterial {\n");
    expected.push_str("    Wood,\n");
    expected.push_str("    Stone,\n");
    expected.push_str("    Iron,\n");
    expected.push_str("    Diamond,\n");
    expected.push_str("    Gold,\n");
    expected.push_str("}\n");
    expected.push_str("impl ToolMaterial {\n");
    expected.push_str("    pub fn dig_multiplier(self) -> f64 {\n");
    expected.push_str("        use ToolMaterial::*;\n");
    expected.push_str("        match self {\n");
    expected.push_str("            Diamond => 8.0f64,\n");
    expected.push_str("            Gold => 12.0f64,\n");
    expected.push_str("            Iron => 6.0f64,\n");
    expected.push_str("            Stone => 4.0f64,\n");
    expected.push_str("            Wood => 2.0f64,\n");
    expected.push_str("        }\n");
    expected.push_str("    }\n");
    expected.push_str("}\n");
    assert_eq!(units[0].contents, expected);
    assert_eq!(units[1].name, "mod");
    assert_eq!(
        units[1].contents,
        format!("{}mod tool;\npub use tool::*;\n", MARKER)
    );
}

#[test]
fn scenario_partial_display_name() {
    // A string property supplying 2 of 5 variants: a partial accessor with
    // a present value for those two and a final default arm.
    let d = load(&[file(
        "tool",
        "[Enum(name: \"tool_material\", variants: [\"Wood\", \"Stone\", \"Iron\", \"Diamond\", \"Gold\"]), Property(on: \"tool_material\", name: \"display_name\", type: string, mapping: { \"Wood\": \"Wooden\", \"Gold\": \"Golden\" })]",
    )]);
    let units = generate(&d);
    let body = &units[0].contents;
    let mut expected_fn = String::new();
    expected_fn.push_str("    pub fn display_name(self) -> Option<&'static str> {\n");
    expected_fn.push_str("        use ToolMaterial::*;\n");
    expected_fn.push_str("        match self {\n");
    expected_fn.push_str("            Wood => Some(\"Wooden\"),\n");
    expected_fn.push_str("            Gold => Some(\"Golden\"),\n");
    expected_fn.push_str("            _ => None,\n");
    expected_fn.push_str("        }\n");
    expected_fn.push_str("    }\n");
    assert!(body.contains(&expected_fn), "generated unit was:\n{}", body);
}

#[test]
fn generation_is_idempotent() {
    let files = [
        file("one", "[Enum(name: \"a\", variants: [\"x\", \"y\"]), Property(on: \"a\", name: \"p\", type: u32, mapping: { \"x\": 1, \"y\": 2 })]"),
        file("two", "Enum(name: \"b\", variants: [\"${a}\"])"),
    ];
    let units1 = generate(&load(&files));
    let units2 = generate(&load(&files));
    assert_eq!(units1.len(), units2.len());
    for (u1, u2) in units1.iter().zip(units2.iter()) {
        assert_eq!(u1.name, u2.name);
        assert_eq!(u1.contents, u2.contents);
    }
}

#[test]
fn camel_casing_of_names_and_keys() {
    // The emitted identifiers go through the casing transform: the enum
    // name and its variants are not emitted verbatim.
    let d = load(&[file(
        "misc",
        "[Enum(name: \"block_kind\", variants: [\"red_sand\", \"oak_log\"]), Property(on: \"block_kind\", name: \"diggable\", type: bool, mapping: { \"red_sand\": true, \"oak_log\": false })]",
    )]);
    let units = generate(&d);
    let body = &units[0].contents;
    assert!(body.contains("pub enum BlockKind {\n    RedSand,\n    OakLog,\n}"));
    assert!(body.contains("            RedSand => true,\n"));
    assert!(!body.contains("block_kind"));
}

#[test]
fn slice_and_custom_rendering() {
    let d = load(&[file(
        "misc",
        "[Enum(name: \"a\", variants: [\"x\"]), Property(on: \"a\", name: \"nums\", type: Slice(u32), mapping: { \"x\": [1, 2, 48] }), Property(on: \"a\", name: \"mat\", type: Custom(\"tool_material\"), mapping: { \"x\": \"gold_one\" }), Enum(name: \"tool_material\", variants: [\"gold_one\"])]",
    )]);
    let units = generate(&d);
    let body = &units[0].contents;
    assert!(body.contains("pub fn nums(self) -> &'static [u32] {"), "{}", body);
    assert!(body.contains("            X => [1u32, 2u32, 48u32],\n"), "{}", body);
    assert!(body.contains("pub fn mat(self) -> crate::ToolMaterial {"), "{}", body);
    assert!(body.contains("            X => GoldOne,\n"), "{}", body);
}

#[test]
fn string_values_are_escaped() {
    let d = load(&[file(
        "misc",
        "[Enum(name: \"a\", variants: [\"x\"]), Property(on: \"a\", name: \"label\", type: string, mapping: { \"x\": \"a 'quote' and back\\slash\" })]",
    )]);
    let units = generate(&d);
    let body = &units[0].contents;
    assert!(
        body.contains("            X => \"a 'quote' and back\\\\slash\",\n"),
        "{}",
        body
    );
}

#[test]
fn units_grouped_by_file_in_first_use_order() {
    let d = load(&[
        file("beta", "Enum(name: \"b\", variants: [\"x\"])"),
        file("alpha", "Enum(name: \"a\", variants: [\"y\"])"),
        file("beta", "Enum(name: \"b2\", variants: [\"z\"])"),
    ]);
    let units = generate(&d);
    assert_eq!(units.len(), 3);
    assert_eq!(units[0].name, "beta");
    assert_eq!(units[1].name, "alpha");
    assert_eq!(units[2].name, "mod");
    assert!(units[0].contents.contains("pub enum B "));
    assert!(units[0].contents.contains("pub enum B2 "));
    assert!(units[1].contents.contains("pub enum A "));
    assert_eq!(
        units[2].contents,
        format!("{}mod beta;\npub use beta::*;\nmod alpha;\npub use alpha::*;\n", MARKER)
    );
}

#[test]
fn empty_input_generates_only_the_manifest() {
    let d = load(&[]);
    assert!(d.enums.is_empty());
    let units = generate(&d);
    assert_eq!(units.len(), 1);
    assert_eq!(units[0].name, "mod");
    assert_eq!(units[0].contents, MARKER);
}

#[test]
fn phase_b_zip_truncates_surplus() {
    // One declared key against a value that expands into two references:
    // the expanded keys and values are zipped positionally, so the surplus
    // value is dropped.
    let d = load(&[file(
        "one",
        "[Enum(name: \"a\", variants: [\"x\", \"y\"]), Enum(name: \"c\", variants: [\"k\"]), Property(on: \"c\", name: \"p\", type: Custom(\"a\"), mapping: { \"k\": \"${a}\" })]",
    )]);
    let c = enum_named(&d, "c");
    let m = &c.properties[0].mapping;
    assert_eq!(m.len(), 1);
    assert_eq!(m[0].0, "k");
    match &m[0].1 {
        Value::Custom(v) => assert_eq!(v, "x"),
        _ => panic!("value not a custom reference"),
    }
}

#[test]
fn tool_sample_orders_and_compares() {
    assert!(ToolMaterial::Wooden < ToolMaterial::Stone);
    assert!(ToolMaterial::Diamond < ToolMaterial::Gold);
    assert_eq!(Tool::Axe, Tool::Axe);
    assert!(Tool::Axe < Tool::Shears);
}

#[test]
fn malformed_file_is_a_parse_error_naming_the_file() {
    let r = from_slice(&[
        file("good", "Enum(name: \"a\", variants: [\"x\"])"),
        file("bad", "Enum(name \"a\")"),
    ]);
    match r {
        Err(e) => {
            assert!(matches!(e.kind, ErrorKind::Parse { .. }));
            assert_eq!(e.file.as_deref(), Some("bad"));
        }
        Ok(_) => panic!("malformed file accepted"),
    }
}
