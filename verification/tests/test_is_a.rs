use enum_methods::decl::{Declaration, Field, NamedField, Shape, TypeDeclaration, Variant};
use enum_methods::enum_is_a;
use enum_methods::eval::{apply_is_predicate, EnumInstance};
use enum_methods::method::{GeneratedMethod, MethodBlock};

fn unit_variant(name: &str) -> Variant {
    Variant { name: name.to_string(), shape: Shape::Unit }
}

fn tuple_variant(name: &str, tys: &[&str]) -> Variant {
    Variant {
        name: name.to_string(),
        shape: Shape::Tuple {
            fields: tys.iter().map(|t| Field { ty: t.to_string() }).collect(),
        },
    }
}

fn struct_variant(name: &str, fields: &[(&str, &str)]) -> Variant {
    Variant {
        name: name.to_string(),
        shape: Shape::Struct {
            fields: fields
                .iter()
                .map(|(n, t)| NamedField { name: n.to_string(), ty: t.to_string() })
                .collect(),
        },
    }
}

fn instance(variant: &str, data: &[&str]) -> EnumInstance {
    EnumInstance {
        variant: variant.to_string(),
        field_data: data.iter().map(|d| d.to_string()).collect(),
    }
}

fn find<'a>(block: &'a MethodBlock, name: &str) -> &'a GeneratedMethod {
    block
        .methods
        .iter()
        .find(|m| m.name == name)
        .unwrap_or_else(|| panic!("no generated method named {}", name))
}

#[test]
fn test_is_a() {
    let decl = Declaration::Enumeration(TypeDeclaration {
        name: "MyEnum".to_string(),
        variants: vec![
            unit_variant("Foo"),
            tuple_variant("Bar", &["bool", "i32"]),
            tuple_variant("Baz", &["String"]),
            struct_variant("StructType", &[("foo", "i32")]),
            struct_variant(
                "BiggerStructType",
                &[("foo", "i32"), ("bar", "&'static str"), ("baz", "bool")],
            ),
        ],
    });
    let block = enum_is_a(&decl).unwrap();
    assert_eq!(block.methods.len(), 5);

    let first = instance("Foo", &[]);
    let second = instance("Bar", &["false", "-3"]);
    let third = instance(
        "Baz",
        &["it's gonna take some time to do the things we never had"],
    );
    let fourth = instance("StructType", &["42"]);
    let fifth = instance(
        "BiggerStructType",
        &["42", "I hear the drums echoing tonight", "true"],
    );

    assert!(apply_is_predicate(find(&block, "is_foo"), &first));
    assert!(apply_is_predicate(find(&block, "is_bar"), &second));
    assert!(apply_is_predicate(find(&block, "is_baz"), &third));
    assert!(apply_is_predicate(find(&block, "is_struct_type"), &fourth));
    assert!(apply_is_predicate(find(&block, "is_bigger_struct_type"), &fifth));
}

#[test]
fn test_is_a_names() {
    let decl = Declaration::Enumeration(TypeDeclaration {
        name: "MyEnum".to_string(),
        variants: vec![
            unit_variant("FooBar"),
            tuple_variant("BarBaz", &["bool", "i32"]),
            tuple_variant("Baz", &["String"]),
        ],
    });
    let block = enum_is_a(&decl).unwrap();

    let first = instance("FooBar", &[]);
    let second = instance("BarBaz", &["false", "-3"]);
    let third = instance("Baz", &["cheers only whispers of some quiet conversation"]);

    assert!(apply_is_predicate(find(&block, "is_foo_bar"), &first));
    assert!(apply_is_predicate(find(&block, "is_bar_baz"), &second));
    assert!(apply_is_predicate(find(&block, "is_baz"), &third));
}

#[test]
fn test_is_a_false_on_other_variants() {
    let decl = Declaration::Enumeration(TypeDeclaration {
        name: "MyEnum".to_string(),
        variants: vec![
            unit_variant("Foo"),
            tuple_variant("Bar", &["bool"]),
            struct_variant("Qux", &[("n", "u8")]),
        ],
    });
    let block = enum_is_a(&decl).unwrap();
    let bar = instance("Bar", &["true"]);
    assert!(apply_is_predicate(find(&block, "is_bar"), &bar));
    assert!(!apply_is_predicate(find(&block, "is_foo"), &bar));
    assert!(!apply_is_predicate(find(&block, "is_qux"), &bar));
}

#[test]
fn test_is_a_zero_field_tuple() {
    // A tuple variant with no fields still gets a predicate, though no
    // getter family covers it.
    let decl = Declaration::Enumeration(TypeDeclaration {
        name: "MyEnum".to_string(),
        variants: vec![tuple_variant("Empty", &[]), tuple_variant("Full", &["u8"])],
    });
    let block = enum_is_a(&decl).unwrap();
    assert_eq!(block.methods.len(), 2);
    let empty = instance("Empty", &[]);
    assert!(apply_is_predicate(find(&block, "is_empty"), &empty));
    assert!(!apply_is_predicate(find(&block, "is_full"), &empty));
}
