//! The runtime meaning of a generated method body, and the behavioral laws
//! of the derivation engine.
//!
//! A generated body is a single conditional match: against a receiver
//! holding the expected variant it yields the bound field data; against any
//! other receiver a getter reports a fatal mismatch failure carrying the
//! method's name and the receiver, while a predicate simply answers false.
//! Stating that meaning over the engine's output lets the laws below be
//! proved once for every declaration, and lets tests drive generated
//! methods without a host compiler.

use vstd::prelude::*;
use crate::classify::{class_matches, lemma_selected_contains, lemma_selected_sound, selected, ShapeClass};
use crate::decl::VariantView;
use crate::getters::{getter_method, getter_methods, tuple_field_types};
use crate::is_a::{predicate_method, predicate_methods};
use crate::method::{method_name_for, Family, GeneratedMethod, GeneratedMethodView};

verus! {

/// A runtime value of the enum under derivation, reduced to what a
/// generated body inspects: the variant the value currently holds, and the
/// data its fields carry, each rendered as opaque text, in declared order.
#[derive(Debug)]
pub struct EnumInstance {
    pub variant: String,
    pub field_data: Vec<String>,
}

/// The mathematical value of an [`EnumInstance`].
pub struct EnumInstanceView {
    pub variant: Seq<char>,
    pub field_data: Seq<Seq<char>>,
}

impl View for EnumInstance {
    type V = EnumInstanceView;

    open spec fn view(&self) -> EnumInstanceView {
        EnumInstanceView { variant: self.variant@, field_data: self.field_data.deep_view() }
    }
}

impl DeepView for EnumInstance {
    type V = EnumInstanceView;

    open spec fn deep_view(&self) -> EnumInstanceView {
        self@
    }
}

fn clone_strings(data: &Vec<String>) -> (out: Vec<String>)
    ensures
        out.deep_view() == data.deep_view(),
{
    let mut out: Vec<String> = Vec::new();
    let mut i: usize = 0;
    while i < data.len()
        invariant
            i <= data@.len(),
            out@.len() == i,
            forall|j: int| 0 <= j < i ==> #[trigger] out@[j]@ == data@[j]@,
        decreases data@.len() - i,
    {
        out.push(data[i].clone());
        i = i + 1;
    }
    proof {
        assert(out.deep_view() =~= data.deep_view());
    }
    out
}

impl Clone for EnumInstance {
    fn clone(&self) -> (out: Self)
        ensures
            out@ == self@,
    {
        EnumInstance { variant: self.variant.clone(), field_data: clone_strings(&self.field_data) }
    }
}

/// What one run of a getter body produces.
#[allow(inconsistent_fields)]
#[derive(Debug)]
pub enum MethodOutcome {
    Extracted { data: Vec<String> },
    MismatchFailure { method_name: String, receiver: EnumInstance },
}

/// The mathematical value of a [`MethodOutcome`].
#[allow(inconsistent_fields)]
pub enum MethodOutcomeView {
    Extracted { data: Seq<Seq<char>> },
    MismatchFailure { method_name: Seq<char>, receiver: EnumInstanceView },
}

impl View for MethodOutcome {
    type V = MethodOutcomeView;

    open spec fn view(&self) -> MethodOutcomeView {
        match self {
            MethodOutcome::Extracted { data } => MethodOutcomeView::Extracted {
                data: data.deep_view(),
            },
            MethodOutcome::MismatchFailure { method_name, receiver } =>
                MethodOutcomeView::MismatchFailure {
                method_name: method_name@,
                receiver: receiver@,
            },
        }
    }
}

/// The outcome of a getter body: the receiver's field data when the
/// receiver holds the expected variant, a mismatch failure carrying the
/// method's name and the receiver otherwise.
pub open spec fn getter_outcome(m: GeneratedMethodView, r: EnumInstanceView) -> MethodOutcomeView {
    if r.variant == m.variant {
        MethodOutcomeView::Extracted { data: r.field_data }
    } else {
        MethodOutcomeView::MismatchFailure { method_name: m.name, receiver: r }
    }
}

/// Does the predicate body answer true: is the receiver's variant the one
/// the method was generated for?
pub open spec fn predicate_matches(m: GeneratedMethodView, r: EnumInstanceView) -> bool {
    r.variant == m.variant
}

/// Run a borrowing getter body — an `as_*` method, which hands the bound
/// data out by reference, or a `to_*` method, which hands out duplicates —
/// on a borrowed receiver. Either way the extracted data equals the
/// receiver's field data, in declared order.
pub fn apply_getter(m: &GeneratedMethod, receiver: &EnumInstance) -> (out: MethodOutcome)
    ensures
        out@ == getter_outcome(m@, receiver@),
{
    if receiver.variant == m.variant {
        MethodOutcome::Extracted { data: clone_strings(&receiver.field_data) }
    } else {
        MethodOutcome::MismatchFailure { method_name: m.name.clone(), receiver: receiver.clone() }
    }
}

/// Run a consuming getter body — an `into_*` method — on a receiver taken
/// by value. The receiver is consumed by construction, so no call site can
/// run it twice on the same value; its field data is returned owned.
pub fn apply_into_getter(m: &GeneratedMethod, receiver: EnumInstance) -> (out: MethodOutcome)
    ensures
        out@ == getter_outcome(m@, receiver@),
{
    if receiver.variant == m.variant {
        MethodOutcome::Extracted { data: receiver.field_data }
    } else {
        MethodOutcome::MismatchFailure { method_name: m.name.clone(), receiver }
    }
}

/// Run a predicate body — an `is_*` method — on a borrowed receiver. A
/// predicate ignores all field values and has no failure path: it answers
/// exactly whether the receiver holds the expected variant.
pub fn apply_is_predicate(m: &GeneratedMethod, receiver: &EnumInstance) -> (out: bool)
    ensures
        out == predicate_matches(m@, receiver@),
{
    receiver.variant == m.variant
}

/// Law: for every tuple variant with at least one field, each getter family
/// derives a method for it — named by the family prefix and the variant's
/// snake_case name — and that method, run on a receiver holding the
/// variant, extracts exactly the receiver's field data in declared order;
/// run on a receiver holding any other variant, it reports a mismatch
/// failure carrying the method's name and the untouched receiver.
pub proof fn lemma_getter_behavior(f: Family, vs: Seq<VariantView>, i: int, r: EnumInstanceView)
    requires
        0 <= i < vs.len(),
        class_matches(ShapeClass::SingleFieldTuple, vs[i]) || class_matches(
            ShapeClass::MultiFieldTuple,
            vs[i],
        ),
    ensures
        exists|j: int|
            0 <= j < getter_methods(f, vs).len() && #[trigger] getter_methods(f, vs)[j]
                == getter_method(f, vs[i]),
        getter_method(f, vs[i]).name == method_name_for(f, vs[i].name),
        getter_method(f, vs[i]).variant == vs[i].name,
        r.variant == vs[i].name ==> getter_outcome(getter_method(f, vs[i]), r)
            == (MethodOutcomeView::Extracted { data: r.field_data }),
        r.variant != vs[i].name ==> getter_outcome(getter_method(f, vs[i]), r)
            == (MethodOutcomeView::MismatchFailure {
            method_name: method_name_for(f, vs[i].name),
            receiver: r,
        }),
{
    let single = class_matches(ShapeClass::SingleFieldTuple, vs[i]);
    let c = if single {
        ShapeClass::SingleFieldTuple
    } else {
        ShapeClass::MultiFieldTuple
    };
    lemma_selected_contains(vs, c, i);
    let sel = selected(vs, c);
    let j0 = choose|j: int| 0 <= j < sel.len() && sel[j] == vs[i];
    if single {
        assert(getter_methods(f, vs)[j0] == getter_method(f, vs[i]));
    } else {
        let offset = selected(vs, ShapeClass::SingleFieldTuple).len();
        assert(getter_methods(f, vs)[offset + j0] == getter_method(f, vs[i]));
    }
}

/// Law: the getter families cover nothing else — every derived getter comes
/// from a tuple variant of the declaration with at least one field. Unit
/// variants, struct variants and zero-field tuple variants contribute no
/// getter.
pub proof fn lemma_getter_methods_exact(f: Family, vs: Seq<VariantView>, j: int)
    requires
        0 <= j < getter_methods(f, vs).len(),
    ensures
        exists|i: int|
            0 <= i < vs.len() && getter_methods(f, vs)[j] == getter_method(f, #[trigger] vs[i])
                && vs[i].shape is Tuple && tuple_field_types(vs[i].shape).len() >= 1,
{
    let singles = selected(vs, ShapeClass::SingleFieldTuple);
    let multis = selected(vs, ShapeClass::MultiFieldTuple);
    if j < singles.len() {
        lemma_selected_sound(vs, ShapeClass::SingleFieldTuple, j);
        let i0 = choose|i: int| 0 <= i < vs.len() && vs[i] == singles[j];
        assert(getter_methods(f, vs)[j] == getter_method(f, vs[i0]));
    } else {
        let k = j - singles.len();
        lemma_selected_sound(vs, ShapeClass::MultiFieldTuple, k);
        let i0 = choose|i: int| 0 <= i < vs.len() && vs[i] == multis[k];
        assert(getter_methods(f, vs)[j] == getter_method(f, vs[i0]));
    }
}

/// Law: every variant of the declaration — whatever its shape or arity,
/// including variants with no fields, several fields, or named fields —
/// gets an is-predicate named by its snake_case name; run on a receiver, the
/// predicate answers true exactly when the receiver holds that variant.
pub proof fn lemma_predicate_behavior(vs: Seq<VariantView>, i: int, r: EnumInstanceView)
    requires
        0 <= i < vs.len(),
    ensures
        exists|j: int|
            0 <= j < predicate_methods(vs).len() && #[trigger] predicate_methods(vs)[j]
                == predicate_method(vs[i]),
        predicate_method(vs[i]).name == method_name_for(Family::IsPredicate, vs[i].name),
        predicate_matches(predicate_method(vs[i]), r) <==> r.variant == vs[i].name,
{
    let from_tuples = selected(vs, ShapeClass::TupleShaped);
    let from_structs = selected(vs, ShapeClass::StructShaped);
    let from_units = selected(vs, ShapeClass::UnitShaped);
    match vs[i].shape {
        crate::decl::ShapeView::Tuple { .. } => {
            lemma_selected_contains(vs, ShapeClass::TupleShaped, i);
            let j0 = choose|j: int|
                0 <= j < from_tuples.len() && from_tuples[j] == vs[i];
            assert(predicate_methods(vs)[j0] == predicate_method(vs[i]));
        },
        crate::decl::ShapeView::Struct { .. } => {
            lemma_selected_contains(vs, ShapeClass::StructShaped, i);
            let j0 = choose|j: int|
                0 <= j < from_structs.len() && from_structs[j] == vs[i];
            assert(predicate_methods(vs)[from_tuples.len() + j0] == predicate_method(vs[i]));
        },
        crate::decl::ShapeView::Unit => {
            lemma_selected_contains(vs, ShapeClass::UnitShaped, i);
            let j0 = choose|j: int| 0 <= j < from_units.len() && from_units[j] == vs[i];
            assert(predicate_methods(vs)[from_tuples.len() + from_structs.len() + j0]
                == predicate_method(vs[i]));
        },
    }
}

/// Law: the predicate derivation yields exactly one method per variant of
/// the declaration, since the three shape classes partition the variant
/// sequence.
pub proof fn lemma_predicate_methods_count(vs: Seq<VariantView>)
    ensures
        predicate_methods(vs).len() == vs.len(),
    decreases vs.len(),
{
    if vs.len() > 0 {
        lemma_predicate_methods_count(vs.drop_last())
    }
}

} // verus!
