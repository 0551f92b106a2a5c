use enum_methods::decl::{Declaration, Field, NamedField, Shape, TypeDeclaration, Variant};
use enum_methods::eval::{apply_getter, apply_into_getter, apply_is_predicate, EnumInstance, MethodOutcome};
use enum_methods::method::{GeneratedMethod, MethodBlock, SelfMode};
use enum_methods::{enum_as_getters, enum_into_getters, enum_is_a, enum_to_getters};

fn tuple_variant(name: &str, tys: &[&str]) -> Variant {
    Variant {
        name: name.to_string(),
        shape: Shape::Tuple {
            fields: tys.iter().map(|t| Field { ty: t.to_string() }).collect(),
        },
    }
}

fn struct_variant(name: &str, fields: &[(&str, &str)]) -> Variant {
    Variant {
        name: name.to_string(),
        shape: Shape::Struct {
            fields: fields
                .iter()
                .map(|(n, t)| NamedField { name: n.to_string(), ty: t.to_string() })
                .collect(),
        },
    }
}

fn instance(variant: &str, data: &[&str]) -> EnumInstance {
    EnumInstance {
        variant: variant.to_string(),
        field_data: data.iter().map(|d| d.to_string()).collect(),
    }
}

fn find<'a>(block: &'a MethodBlock, name: &str) -> &'a GeneratedMethod {
    block
        .methods
        .iter()
        .find(|m| m.name == name)
        .unwrap_or_else(|| panic!("no generated method named {}", name))
}

fn extracted(out: MethodOutcome) -> Vec<String> {
    match out {
        MethodOutcome::Extracted { data } => data,
        MethodOutcome::MismatchFailure { method_name, .. } => {
            panic!("unexpected mismatch failure in {}", method_name)
        }
    }
}

#[test]
fn test_end_to_end_all_families() {
    let decl = Declaration::Enumeration(TypeDeclaration {
        name: "MyEnum".to_string(),
        variants: vec![
            tuple_variant("Foo", &["i64"]),
            tuple_variant("Bar", &["bool"]),
            tuple_variant("Baz", &["String"]),
        ],
    });
    let as_block = enum_as_getters(&decl).unwrap();
    let into_block = enum_into_getters(&decl).unwrap();
    let to_block = enum_to_getters(&decl).unwrap();
    let is_block = enum_is_a(&decl).unwrap();

    for name in ["as_foo", "as_bar", "as_baz"] {
        find(&as_block, name);
    }
    for name in ["into_foo", "into_bar", "into_baz"] {
        find(&into_block, name);
    }
    for name in ["to_foo", "to_bar", "to_baz"] {
        find(&to_block, name);
    }
    for name in ["is_foo", "is_bar", "is_baz"] {
        find(&is_block, name);
    }

    let foo = instance("Foo", &["42"]);
    assert_eq!(extracted(apply_getter(find(&as_block, "as_foo"), &foo)), vec!["42"]);

    let bar = instance("Bar", &["false"]);
    assert!(!apply_is_predicate(find(&is_block, "is_foo"), &bar));

    let baz = instance("Baz", &["x"]);
    assert_eq!(
        extracted(apply_into_getter(find(&into_block, "into_baz"), baz)),
        vec!["x"]
    );
}

#[test]
fn test_struct_variant_gets_predicate_only() {
    let decl = Declaration::Enumeration(TypeDeclaration {
        name: "MyEnum".to_string(),
        variants: vec![
            struct_variant("StructType", &[("foo", "i32")]),
            tuple_variant("Plain", &["u8"]),
        ],
    });
    let as_block = enum_as_getters(&decl).unwrap();
    let into_block = enum_into_getters(&decl).unwrap();
    let to_block = enum_to_getters(&decl).unwrap();
    let is_block = enum_is_a(&decl).unwrap();

    assert!(as_block.methods.iter().all(|m| m.name != "as_struct_type"));
    assert!(into_block.methods.iter().all(|m| m.name != "into_struct_type"));
    assert!(to_block.methods.iter().all(|m| m.name != "to_struct_type"));
    let with = instance("StructType", &["42"]);
    assert!(apply_is_predicate(find(&is_block, "is_struct_type"), &with));
}

#[test]
fn test_unsupported_shape_is_rejected() {
    let decl = Declaration::Other { name: "NotAnEnum".to_string() };
    assert_eq!(enum_as_getters(&decl).unwrap_err().name, "NotAnEnum");
    assert_eq!(enum_into_getters(&decl).unwrap_err().name, "NotAnEnum");
    assert_eq!(enum_to_getters(&decl).unwrap_err().name, "NotAnEnum");
    assert_eq!(enum_is_a(&decl).unwrap_err().name, "NotAnEnum");
}

#[test]
fn test_empty_enum_derives_nothing() {
    let decl = Declaration::Enumeration(TypeDeclaration {
        name: "Never".to_string(),
        variants: vec![],
    });
    assert!(enum_as_getters(&decl).unwrap().methods.is_empty());
    assert!(enum_into_getters(&decl).unwrap().methods.is_empty());
    assert!(enum_to_getters(&decl).unwrap().methods.is_empty());
    assert!(enum_is_a(&decl).unwrap().methods.is_empty());
}

#[test]
fn test_method_block_order_and_modes() {
    // Single-field getters come first in declaration order, then the
    // multi-field getters; only into-getters consume the receiver.
    let decl = Declaration::Enumeration(TypeDeclaration {
        name: "MyEnum".to_string(),
        variants: vec![
            tuple_variant("Trio", &["u8", "u8", "u8"]),
            tuple_variant("One", &["u8"]),
            tuple_variant("Two", &["u8", "u8"]),
        ],
    });
    let as_block = enum_as_getters(&decl).unwrap();
    let names: Vec<&str> = as_block.methods.iter().map(|m| m.name.as_str()).collect();
    assert_eq!(names, vec!["as_one", "as_trio", "as_two"]);
    assert!(as_block.methods.iter().all(|m| matches!(m.self_mode, SelfMode::Borrowed)));

    let into_block = enum_into_getters(&decl).unwrap();
    assert!(into_block.methods.iter().all(|m| matches!(m.self_mode, SelfMode::Consuming)));

    // Multi-field bodies bind each field to a distinct supply name in order.
    let trio = find(&as_block, "as_trio");
    assert_eq!(trio.bindings, vec!["a", "b", "c"]);
    assert_eq!(trio.field_tys, vec!["u8", "u8", "u8"]);
    let one = find(&as_block, "as_one");
    assert_eq!(one.bindings, vec!["v"]);
}
