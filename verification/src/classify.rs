//! The variant classifier: a stable filter over a declaration's ordered
//! variant sequence, keyed by shape and arity.

use vstd::prelude::*;
use crate::decl::{Shape, ShapeView, Variant, VariantView};

verus! {

/// The shape-and-arity predicates a derivation selects variants by.
#[derive(Clone, Copy)]
pub enum ShapeClass {
    UnitShaped,
    TupleShaped,
    SingleFieldTuple,
    MultiFieldTuple,
    StructShaped,
}

/// Does variant `v` fall in class `c`?
pub open spec fn class_matches(c: ShapeClass, v: VariantView) -> bool {
    match c {
        ShapeClass::UnitShaped => v.shape is Unit,
        ShapeClass::TupleShaped => v.shape is Tuple,
        ShapeClass::SingleFieldTuple => v.shape matches ShapeView::Tuple { fields }
            && fields.len() == 1,
        ShapeClass::MultiFieldTuple => v.shape matches ShapeView::Tuple { fields }
            && fields.len() > 1,
        ShapeClass::StructShaped => v.shape is Struct,
    }
}

/// The ordered sub-sequence of `vs` falling in class `c`, in declaration
/// order: a stable filter.
pub open spec fn selected(vs: Seq<VariantView>, c: ShapeClass) -> Seq<VariantView>
    decreases vs.len(),
{
    if vs.len() == 0 {
        Seq::empty()
    } else if class_matches(c, vs.last()) {
        selected(vs.drop_last(), c).push(vs.last())
    } else {
        selected(vs.drop_last(), c)
    }
}

/// Law: selection is sound — every selected variant falls in the class and
/// occurs in the declaration.
pub proof fn lemma_selected_sound(vs: Seq<VariantView>, c: ShapeClass, j: int)
    requires
        0 <= j < selected(vs, c).len(),
    ensures
        class_matches(c, selected(vs, c)[j]),
        exists|i: int| 0 <= i < vs.len() && vs[i] == selected(vs, c)[j],
    decreases vs.len(),
{
    if vs.len() > 0 {
        let pre = selected(vs.drop_last(), c);
        if j < pre.len() {
            lemma_selected_sound(vs.drop_last(), c, j);
            let i0 = choose|i: int|
                0 <= i < vs.drop_last().len() && vs.drop_last()[i] == pre[j];
            assert(vs[i0] == selected(vs, c)[j]);
        } else {
            assert(vs[vs.len() - 1] == selected(vs, c)[j]);
        }
    }
}

/// Law: selection is complete — every variant falling in the class is kept.
pub proof fn lemma_selected_contains(vs: Seq<VariantView>, c: ShapeClass, i: int)
    requires
        0 <= i < vs.len(),
        class_matches(c, vs[i]),
    ensures
        selected(vs, c).contains(vs[i]),
    decreases vs.len(),
{
    if i == vs.len() - 1 {
        let sel = selected(vs, c);
        assert(sel[sel.len() - 1] == vs[i]);
    } else {
        lemma_selected_contains(vs.drop_last(), c, i);
        let pre = selected(vs.drop_last(), c);
        let j = choose|j: int| 0 <= j < pre.len() && pre[j] == vs.drop_last()[i];
        assert(selected(vs, c)[j] == vs[i]);
    }
}

/// Does this variant fall in the given class?
fn variant_in_class(v: &Variant, class: ShapeClass) -> (r: bool)
    ensures
        r == class_matches(class, v@),
{
    match class {
        ShapeClass::UnitShaped => match &v.shape {
            Shape::Unit => true,
            _ => false,
        },
        ShapeClass::TupleShaped => match &v.shape {
            Shape::Tuple { .. } => true,
            _ => false,
        },
        ShapeClass::SingleFieldTuple => match &v.shape {
            Shape::Tuple { fields } => fields.len() == 1,
            _ => false,
        },
        ShapeClass::MultiFieldTuple => match &v.shape {
            Shape::Tuple { fields } => fields.len() > 1,
            _ => false,
        },
        ShapeClass::StructShaped => match &v.shape {
            Shape::Struct { .. } => true,
            _ => false,
        },
    }
}

/// Produce the ordered sub-sequence of `variants` falling in `class`,
/// preserving declaration order and leaving the input untouched.
pub fn classify(variants: &Vec<Variant>, class: ShapeClass) -> (out: Vec<Variant>)
    ensures
        out.deep_view() == selected(variants.deep_view(), class),
{
    let mut out: Vec<Variant> = Vec::new();
    let mut i: usize = 0;
    while i < variants.len()
        invariant
            i <= variants@.len(),
            out.deep_view() == selected(variants.deep_view().take(i as int), class),
        decreases variants@.len() - i,
    {
        let ghost prev = out.deep_view();
        if variant_in_class(&variants[i], class) {
            out.push(variants[i].clone());
            proof {
                assert(out.deep_view() =~= prev.push(variants.deep_view()[i as int]));
            }
        }
        proof {
            let dv = variants.deep_view();
            assert(dv.take(i as int + 1).drop_last() =~= dv.take(i as int));
            assert(dv.take(i as int + 1).last() == dv[i as int]);
        }
        i = i + 1;
    }
    proof {
        assert(variants.deep_view().take(variants@.len() as int) =~= variants.deep_view());
    }
    out
}

} // verus!
