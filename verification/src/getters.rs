//! Synthesis of the three getter families: `as_*` methods returning
//! references, `into_*` methods consuming the value, and `to_*` methods
//! returning duplicates. Each tuple variant with at least one field
//! contributes one method; unit and struct variants contribute none.

use vstd::prelude::*;
use crate::classify::{classify, selected, ShapeClass};
use crate::decl::{Field, FieldView, Shape, TypeDeclaration, Variant, VariantView};
use crate::method::{
    method_name, method_name_for, Family, GeneratedMethod, GeneratedMethodView, SelfMode,
    ShapeKind,
};
use crate::util::{fresh_name, UniqueIdentifierIterator};

verus! {

/// The declared types of a field sequence, in declared order.
pub open spec fn field_types_of(fields: Seq<FieldView>) -> Seq<Seq<char>> {
    Seq::new(fields.len(), |i: int| fields[i].ty)
}

/// The declared types bound by a getter for a variant of the given shape:
/// the tuple field types in order, or nothing for a shape without unnamed
/// fields.
pub open spec fn tuple_field_types(s: crate::decl::ShapeView) -> Seq<Seq<char>> {
    match s {
        crate::decl::ShapeView::Tuple { fields } => field_types_of(fields),
        _ => Seq::empty(),
    }
}

/// The binding names a getter body introduces for the given arity: the
/// single fixed binding `v` when one field is bound, otherwise one
/// fresh-supply name per field.
pub open spec fn binding_names(arity: nat) -> Seq<Seq<char>> {
    if arity == 1 {
        seq![seq!['v']]
    } else {
        Seq::new(arity, |i: int| fresh_name(i as nat))
    }
}

/// The getter method of family `f` derived from variant `v`.
pub open spec fn getter_method(f: Family, v: VariantView) -> GeneratedMethodView {
    GeneratedMethodView {
        name: method_name_for(f, v.name),
        family: f,
        self_mode: if f is IntoGetter {
            SelfMode::Consuming
        } else {
            SelfMode::Borrowed
        },
        variant: v.name,
        shape_kind: ShapeKind::Tuple,
        field_tys: tuple_field_types(v.shape),
        bindings: binding_names(tuple_field_types(v.shape).len()),
    }
}

/// One getter of family `f` for each variant of `sel`, in order.
pub open spec fn getter_methods_for(f: Family, sel: Seq<VariantView>) -> Seq<
    GeneratedMethodView,
> {
    Seq::new(sel.len(), |i: int| getter_method(f, sel[i]))
}

/// Every getter of family `f` for a declaration's variant sequence: one per
/// single-field tuple variant, then one per multi-field tuple variant, each
/// group in declaration order.
pub open spec fn getter_methods(f: Family, vs: Seq<VariantView>) -> Seq<GeneratedMethodView> {
    getter_methods_for(f, selected(vs, ShapeClass::SingleFieldTuple)) + getter_methods_for(
        f,
        selected(vs, ShapeClass::MultiFieldTuple),
    )
}

/// Copy the declared field types out of a tuple variant's field list.
fn types_of_fields(fields: &Vec<Field>) -> (out: Vec<String>)
    ensures
        out.deep_view() == field_types_of(fields.deep_view()),
{
    let mut out: Vec<String> = Vec::new();
    let mut i: usize = 0;
    while i < fields.len()
        invariant
            i <= fields@.len(),
            out@.len() == i,
            forall|j: int| 0 <= j < i ==> #[trigger] out@[j]@ == fields@[j]@.ty,
        decreases fields@.len() - i,
    {
        out.push(fields[i].ty.clone());
        i = i + 1;
    }
    proof {
        assert(out.deep_view() =~= field_types_of(fields.deep_view()));
    }
    out
}

/// Produce the binding names for a getter of the given arity: `v` alone for
/// one field, otherwise one name per field from a fresh supply scoped to
/// this method.
fn make_bindings(n: usize) -> (out: Vec<String>)
    ensures
        out.deep_view() == binding_names(n as nat),
{
    let mut out: Vec<String> = Vec::new();
    if n == 1 {
        out.push(String::from_str("v"));
        proof {
            reveal_strlit("v");
            assert(out@[0]@ =~= seq!['v']);
            assert(out.deep_view() =~= binding_names(1));
        }
    } else {
        let mut supply = UniqueIdentifierIterator::new();
        let mut k: usize = 0;
        while k < n
            invariant
                k <= n,
                supply.wf(),
                supply.counter() == k,
                out@.len() == k,
                forall|j: int| 0 <= j < k ==> #[trigger] out@[j]@ == fresh_name(j as nat),
            decreases n - k,
        {
            let binding = supply.next();
            out.push(binding);
            k = k + 1;
        }
        proof {
            assert(out.deep_view() =~= binding_names(n as nat));
        }
    }
    out
}

/// Build the getter of family `f` for one variant.
fn getter_for(f: Family, v: &Variant) -> (m: GeneratedMethod)
    ensures
        m@ == getter_method(f, v@),
{
    let name = method_name(f, v.name.as_str());
    let field_tys: Vec<String> = match &v.shape {
        Shape::Tuple { fields } => types_of_fields(fields),
        _ => Vec::new(),
    };
    proof {
        assert(field_tys.deep_view() =~= tuple_field_types(v@.shape));
    }
    let bindings = make_bindings(field_tys.len());
    let self_mode = match f {
        Family::IntoGetter => SelfMode::Consuming,
        _ => SelfMode::Borrowed,
    };
    GeneratedMethod {
        name,
        family: f,
        self_mode,
        variant: v.name.clone(),
        shape_kind: ShapeKind::Tuple,
        field_tys,
        bindings,
    }
}

/// One getter of family `f` per variant of `variants`, in order.
fn getters_for(f: Family, variants: &Vec<Variant>) -> (out: Vec<GeneratedMethod>)
    ensures
        out.deep_view() == getter_methods_for(f, variants.deep_view()),
{
    let mut out: Vec<GeneratedMethod> = Vec::new();
    let mut i: usize = 0;
    while i < variants.len()
        invariant
            i <= variants@.len(),
            out@.len() == i,
            forall|j: int| 0 <= j < i ==> #[trigger] out@[j]@ == getter_method(f, variants@[j]@),
        decreases variants@.len() - i,
    {
        let m = getter_for(f, &variants[i]);
        out.push(m);
        i = i + 1;
    }
    proof {
        assert(out.deep_view() =~= getter_methods_for(f, variants.deep_view()));
    }
    out
}

/// Synthesize every getter of family `f` for the declaration: single-field
/// tuple variants first, then multi-field tuple variants, each group in
/// declaration order.
fn tuple_getters(f: Family, decl: &TypeDeclaration) -> (out: Vec<GeneratedMethod>)
    ensures
        out.deep_view() == getter_methods(f, decl@.variants),
{
    let singles = classify(&decl.variants, ShapeClass::SingleFieldTuple);
    let multis = classify(&decl.variants, ShapeClass::MultiFieldTuple);
    let mut out = getters_for(f, &singles);
    let mut more = getters_for(f, &multis);
    let ghost first = out.deep_view();
    let ghost second = more.deep_view();
    out.append(&mut more);
    proof {
        assert(out.deep_view() =~= first + second);
    }
    out
}

/// The `as_*` getters of a declaration: for every tuple variant, a method
/// that borrows the receiver and returns a reference to the single field, or
/// a tuple of references to the fields in declared order; on any other
/// variant the method reports a mismatch failure.
pub fn impl_enum_as_getters(decl: &TypeDeclaration) -> (out: Vec<GeneratedMethod>)
    ensures
        out.deep_view() == getter_methods(Family::AsGetter, decl@.variants),
{
    tuple_getters(Family::AsGetter, decl)
}

/// The `into_*` getters of a declaration: as [`impl_enum_as_getters`], but
/// each method consumes the receiver and returns the field values owned.
pub fn impl_enum_into_getters(decl: &TypeDeclaration) -> (out: Vec<GeneratedMethod>)
    ensures
        out.deep_view() == getter_methods(Family::IntoGetter, decl@.variants),
{
    tuple_getters(Family::IntoGetter, decl)
}

/// The `to_*` getters of a declaration: as [`impl_enum_as_getters`], but
/// each method returns duplicates of the field values, leaving the receiver
/// borrowed.
pub fn impl_enum_to_getters(decl: &TypeDeclaration) -> (out: Vec<GeneratedMethod>)
    ensures
        out.deep_view() == getter_methods(Family::ToGetter, decl@.variants),
{
    tuple_getters(Family::ToGetter, decl)
}

} // verus!
