use enum_methods::decl::{Declaration, Field, NamedField, Shape, TypeDeclaration, Variant};
use enum_methods::enum_as_getters;
use enum_methods::eval::{apply_getter, EnumInstance, MethodOutcome};
use enum_methods::method::{Family, GeneratedMethod, SelfMode, ShapeKind};

fn tuple_variant(name: &str, tys: &[&str]) -> Variant {
    Variant {
        name: name.to_string(),
        shape: Shape::Tuple {
            fields: tys.iter().map(|t| Field { ty: t.to_string() }).collect(),
        },
    }
}

fn struct_variant(name: &str, fields: &[(&str, &str)]) -> Variant {
    Variant {
        name: name.to_string(),
        shape: Shape::Struct {
            fields: fields
                .iter()
                .map(|(n, t)| NamedField { name: n.to_string(), ty: t.to_string() })
                .collect(),
        },
    }
}

fn instance(variant: &str, data: &[&str]) -> EnumInstance {
    EnumInstance {
        variant: variant.to_string(),
        field_data: data.iter().map(|d| d.to_string()).collect(),
    }
}

fn extracted(out: MethodOutcome) -> Vec<String> {
    match out {
        MethodOutcome::Extracted { data } => data,
        MethodOutcome::MismatchFailure { method_name, .. } => {
            panic!("unexpected mismatch failure in {}", method_name)
        }
    }
}

#[test]
fn test_as_getters() {
    let decl = Declaration::Enumeration(TypeDeclaration {
        name: "MyEnum".to_string(),
        variants: vec![
            tuple_variant("Foo", &["i64"]),
            tuple_variant("Bar", &["bool"]),
            tuple_variant("Baz", &["String"]),
            tuple_variant("Tup", &["i32", "String", "Vec<bool>"]),
        ],
    });
    let block = enum_as_getters(&decl).unwrap();
    assert_eq!(block.target_name, "MyEnum");
    assert_eq!(block.methods.len(), 4);
    assert_eq!(block.methods[0].name, "as_foo");
    assert_eq!(block.methods[1].name, "as_bar");
    assert_eq!(block.methods[2].name, "as_baz");
    assert_eq!(block.methods[3].name, "as_tup");

    let foo = instance("Foo", &["42"]);
    let bar = instance("Bar", &["false"]);
    let baz = instance("Baz", &["hurry boy, it's waiting there for you"]);
    let tup = instance(
        "Tup",
        &["42", "Hello, Tuple, my old friend!", "[true, false, true]"],
    );
    assert_eq!(extracted(apply_getter(&block.methods[0], &foo)), vec!["42"]);
    assert_eq!(extracted(apply_getter(&block.methods[1], &bar)), vec!["false"]);
    assert_eq!(
        extracted(apply_getter(&block.methods[2], &baz)),
        vec!["hurry boy, it's waiting there for you"]
    );
    assert_eq!(
        extracted(apply_getter(&block.methods[3], &tup)),
        vec!["42", "Hello, Tuple, my old friend!", "[true, false, true]"]
    );
}

#[test]
fn test_as_getter_names() {
    let decl = Declaration::Enumeration(TypeDeclaration {
        name: "MyEnum".to_string(),
        variants: vec![
            tuple_variant("FooBar", &["bool"]),
            tuple_variant("BarBaz", &["String"]),
        ],
    });
    let block = enum_as_getters(&decl).unwrap();
    assert_eq!(block.methods[0].name, "as_foo_bar");
    assert_eq!(block.methods[1].name, "as_bar_baz");

    let first = instance("FooBar", &["true"]);
    let second = instance(
        "BarBaz",
        &["there's nothing that a hundred men or more could ever do"],
    );
    assert_eq!(extracted(apply_getter(&block.methods[0], &first)), vec!["true"]);
    assert_eq!(
        extracted(apply_getter(&block.methods[1], &second)),
        vec!["there's nothing that a hundred men or more could ever do"]
    );
}

#[test]
fn test_as_getters_test_getter_structs() {
    let decl = Declaration::Enumeration(TypeDeclaration {
        name: "MyEnum".to_string(),
        variants: vec![
            tuple_variant("FooBar", &["bool"]),
            tuple_variant("BarBaz", &["String"]),
            struct_variant("SomeStruct", &[("foo", "i32")]), // should be skipped
        ],
    });
    let block = enum_as_getters(&decl).unwrap();
    assert_eq!(block.methods.len(), 2);
    assert_eq!(block.methods[0].name, "as_foo_bar");
    assert_eq!(block.methods[1].name, "as_bar_baz");

    // The skipped struct variant keeps its accessor only if written by hand.
    let as_some_struct = GeneratedMethod {
        name: "as_some_struct".to_string(),
        family: Family::AsGetter,
        self_mode: SelfMode::Borrowed,
        variant: "SomeStruct".to_string(),
        shape_kind: ShapeKind::Struct,
        field_tys: vec!["i32".to_string()],
        bindings: vec!["foo".to_string()],
    };

    let first = instance("FooBar", &["true"]);
    let second = instance(
        "BarBaz",
        &["there's nothing that a hundred men or more could ever do"],
    );
    let third = instance("SomeStruct", &["42"]);
    assert_eq!(extracted(apply_getter(&block.methods[0], &first)), vec!["true"]);
    assert_eq!(
        extracted(apply_getter(&block.methods[1], &second)),
        vec!["there's nothing that a hundred men or more could ever do"]
    );
    assert_eq!(extracted(apply_getter(&as_some_struct, &third)), vec!["42"]);
}

#[test]
fn test_as_getter_mismatch_failure() {
    let decl = Declaration::Enumeration(TypeDeclaration {
        name: "MyEnum".to_string(),
        variants: vec![
            tuple_variant("Foo", &["i64"]),
            tuple_variant("Bar", &["bool"]),
        ],
    });
    let block = enum_as_getters(&decl).unwrap();
    let bar = instance("Bar", &["true"]);
    match apply_getter(&block.methods[0], &bar) {
        MethodOutcome::Extracted { .. } => panic!("as_foo must not extract from Bar"),
        MethodOutcome::MismatchFailure { method_name, receiver } => {
            assert_eq!(method_name, "as_foo");
            assert_eq!(receiver.variant, "Bar");
            assert_eq!(receiver.field_data, vec!["true"]);
        }
    }
}
