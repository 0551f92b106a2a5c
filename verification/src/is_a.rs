//! Synthesis of the `is_*` predicate family: every variant, whatever its
//! shape or arity, gets a boolean method that tests whether the receiver
//! currently holds that variant. Predicates ignore all field values and have
//! no failure path.

use vstd::prelude::*;
use crate::classify::{classify, selected, ShapeClass};
use crate::decl::{TypeDeclaration, Variant, VariantView};
use crate::method::{
    method_name, method_name_for, shape_kind_of, Family, GeneratedMethod, GeneratedMethodView,
    SelfMode, ShapeKind,
};

verus! {

/// The predicate method derived from variant `v`.
pub open spec fn predicate_method(v: VariantView) -> GeneratedMethodView {
    GeneratedMethodView {
        name: method_name_for(Family::IsPredicate, v.name),
        family: Family::IsPredicate,
        self_mode: SelfMode::Borrowed,
        variant: v.name,
        shape_kind: shape_kind_of(v.shape),
        field_tys: Seq::empty(),
        bindings: Seq::empty(),
    }
}

/// One predicate for each variant of `sel`, in order.
pub open spec fn predicate_methods_for(sel: Seq<VariantView>) -> Seq<GeneratedMethodView> {
    Seq::new(sel.len(), |i: int| predicate_method(sel[i]))
}

/// Every predicate for a declaration's variant sequence, as one combined
/// derivation covers all shapes: tuple variants first, then struct variants,
/// then unit variants, each group in declaration order.
pub open spec fn predicate_methods(vs: Seq<VariantView>) -> Seq<GeneratedMethodView> {
    predicate_methods_for(selected(vs, ShapeClass::TupleShaped)) + predicate_methods_for(
        selected(vs, ShapeClass::StructShaped),
    ) + predicate_methods_for(selected(vs, ShapeClass::UnitShaped))
}

/// Build the predicate for one variant.
fn predicate_for(v: &Variant) -> (m: GeneratedMethod)
    ensures
        m@ == predicate_method(v@),
{
    let name = method_name(Family::IsPredicate, v.name.as_str());
    let shape_kind = match &v.shape {
        crate::decl::Shape::Unit => ShapeKind::Unit,
        crate::decl::Shape::Tuple { .. } => ShapeKind::Tuple,
        crate::decl::Shape::Struct { .. } => ShapeKind::Struct,
    };
    let m = GeneratedMethod {
        name,
        family: Family::IsPredicate,
        self_mode: SelfMode::Borrowed,
        variant: v.name.clone(),
        shape_kind,
        field_tys: Vec::new(),
        bindings: Vec::new(),
    };
    proof {
        assert(m@.field_tys =~= Seq::<Seq<char>>::empty());
        assert(m@.bindings =~= Seq::<Seq<char>>::empty());
    }
    m
}

/// One predicate per variant of `variants`, in order.
fn predicates_for(variants: &Vec<Variant>) -> (out: Vec<GeneratedMethod>)
    ensures
        out.deep_view() == predicate_methods_for(variants.deep_view()),
{
    let mut out: Vec<GeneratedMethod> = Vec::new();
    let mut i: usize = 0;
    while i < variants.len()
        invariant
            i <= variants@.len(),
            out@.len() == i,
            forall|j: int| 0 <= j < i ==> #[trigger] out@[j]@ == predicate_method(variants@[j]@),
        decreases variants@.len() - i,
    {
        let m = predicate_for(&variants[i]);
        out.push(m);
        i = i + 1;
    }
    proof {
        assert(out.deep_view() =~= predicate_methods_for(variants.deep_view()));
    }
    out
}

/// The predicates for the declaration's tuple variants, in declaration
/// order.
pub fn impl_enum_is_a(decl: &TypeDeclaration) -> (out: Vec<GeneratedMethod>)
    ensures
        out.deep_view() == predicate_methods_for(
            selected(decl@.variants, ShapeClass::TupleShaped),
        ),
{
    let sel = classify(&decl.variants, ShapeClass::TupleShaped);
    predicates_for(&sel)
}

/// The predicates for the declaration's struct variants, in declaration
/// order.
pub fn impl_struct_enum_is_a(decl: &TypeDeclaration) -> (out: Vec<GeneratedMethod>)
    ensures
        out.deep_view() == predicate_methods_for(
            selected(decl@.variants, ShapeClass::StructShaped),
        ),
{
    let sel = classify(&decl.variants, ShapeClass::StructShaped);
    predicates_for(&sel)
}

/// The predicates for the declaration's unit variants, in declaration order.
pub fn impl_unit_enum_is_a(decl: &TypeDeclaration) -> (out: Vec<GeneratedMethod>)
    ensures
        out.deep_view() == predicate_methods_for(
            selected(decl@.variants, ShapeClass::UnitShaped),
        ),
{
    let sel = classify(&decl.variants, ShapeClass::UnitShaped);
    predicates_for(&sel)
}

} // verus!
