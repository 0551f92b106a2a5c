//! The output entities of a derivation: generated method definitions, the
//! block that bundles them for one type, and the derivation failure.

use vstd::prelude::*;
use crate::decl::ShapeView;
use crate::util::{snake_case_of, to_snake_case};

verus! {

/// The four derivable method families.
#[derive(Clone, Copy, Debug)]
pub enum Family {
    AsGetter,
    IntoGetter,
    ToGetter,
    IsPredicate,
}

/// How a generated method takes its receiver.
#[derive(Clone, Copy, Debug)]
pub enum SelfMode {
    Borrowed,
    Consuming,
}

/// How the expected variant is written in the method body's match pattern.
#[derive(Clone, Copy, Debug)]
pub enum ShapeKind {
    Unit,
    Tuple,
    Struct,
}

/// The pattern style that matches a variant of the given shape.
pub open spec fn shape_kind_of(s: ShapeView) -> ShapeKind {
    match s {
        ShapeView::Unit => ShapeKind::Unit,
        ShapeView::Tuple { .. } => ShapeKind::Tuple,
        ShapeView::Struct { .. } => ShapeKind::Struct,
    }
}

/// The name prefix of each method family.
pub open spec fn family_prefix(f: Family) -> Seq<char> {
    match f {
        Family::AsGetter => seq!['a', 's', '_'],
        Family::IntoGetter => seq!['i', 'n', 't', 'o', '_'],
        Family::ToGetter => seq!['t', 'o', '_'],
        Family::IsPredicate => seq!['i', 's', '_'],
    }
}

/// A generated method's name: the family prefix followed by the snake_case
/// form of the variant name.
pub open spec fn method_name_for(f: Family, variant_name: Seq<char>) -> Seq<char> {
    family_prefix(f) + snake_case_of(variant_name)
}

/// Derive the method name for family `f` and the given variant identifier.
pub fn method_name(f: Family, variant_ident: &str) -> (out: String)
    ensures
        out@ == method_name_for(f, variant_ident@),
{
    let snake = to_snake_case(variant_ident);
    let mut out = match f {
        Family::AsGetter => String::from_str("as_"),
        Family::IntoGetter => String::from_str("into_"),
        Family::ToGetter => String::from_str("to_"),
        Family::IsPredicate => String::from_str("is_"),
    };
    proof {
        reveal_strlit("as_");
        reveal_strlit("into_");
        reveal_strlit("to_");
        reveal_strlit("is_");
        assert(out@ =~= family_prefix(f));
    }
    out.append(snake.as_str());
    out
}

/// One generated method: its derived name, its family and receiver mode, and
/// the data its body is built from — the expected variant, the pattern style
/// that matches it, the declared types of the fields it extracts in declared
/// order, and the binding names its pattern introduces. Identifiers are
/// copied out of the input declaration by value; a method never points back
/// into it.
#[derive(Debug)]
pub struct GeneratedMethod {
    pub name: String,
    pub family: Family,
    pub self_mode: SelfMode,
    pub variant: String,
    pub shape_kind: ShapeKind,
    pub field_tys: Vec<String>,
    pub bindings: Vec<String>,
}

/// The mathematical value of a [`GeneratedMethod`].
pub struct GeneratedMethodView {
    pub name: Seq<char>,
    pub family: Family,
    pub self_mode: SelfMode,
    pub variant: Seq<char>,
    pub shape_kind: ShapeKind,
    pub field_tys: Seq<Seq<char>>,
    pub bindings: Seq<Seq<char>>,
}

impl View for GeneratedMethod {
    type V = GeneratedMethodView;

    open spec fn view(&self) -> GeneratedMethodView {
        GeneratedMethodView {
            name: self.name@,
            family: self.family,
            self_mode: self.self_mode,
            variant: self.variant@,
            shape_kind: self.shape_kind,
            field_tys: self.field_tys.deep_view(),
            bindings: self.bindings.deep_view(),
        }
    }
}

impl DeepView for GeneratedMethod {
    type V = GeneratedMethodView;

    open spec fn deep_view(&self) -> GeneratedMethodView {
        self@
    }
}

/// One derivation's result: the methods to attach to the named type, as one
/// additional method-definition block.
#[derive(Debug)]
pub struct MethodBlock {
    pub target_name: String,
    pub methods: Vec<GeneratedMethod>,
}

/// The mathematical value of a [`MethodBlock`].
pub struct MethodBlockView {
    pub target_name: Seq<char>,
    pub methods: Seq<GeneratedMethodView>,
}

impl View for MethodBlock {
    type V = MethodBlockView;

    open spec fn view(&self) -> MethodBlockView {
        MethodBlockView { target_name: self.target_name@, methods: self.methods.deep_view() }
    }
}

impl DeepView for MethodBlock {
    type V = MethodBlockView;

    open spec fn deep_view(&self) -> MethodBlockView {
        self@
    }
}

/// The failure raised when a derivation request is made for a declaration
/// that is not an enum; it carries that declaration's name.
#[derive(Debug)]
pub struct UnsupportedShapeError {
    pub name: String,
}

impl View for UnsupportedShapeError {
    type V = Seq<char>;

    open spec fn view(&self) -> Seq<char> {
        self.name@
    }
}

} // verus!
