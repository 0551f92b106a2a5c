//! The structured description of a type declaration, as handed to the
//! derivation engine: an enum's name and its ordered variants, each of unit,
//! tuple or struct shape. Field types are opaque source text; the engine
//! never interprets them beyond copying them into generated signatures.

use vstd::prelude::*;

verus! {

/// An unnamed, positional field of a tuple variant. Its ordinal position is
/// implicit in the sequence order; its declared type is opaque token text.
#[derive(Debug)]
pub struct Field {
    pub ty: String,
}

/// The mathematical value of a [`Field`].
pub struct FieldView {
    pub ty: Seq<char>,
}

impl View for Field {
    type V = FieldView;

    open spec fn view(&self) -> FieldView {
        FieldView { ty: self.ty@ }
    }
}

impl DeepView for Field {
    type V = FieldView;

    open spec fn deep_view(&self) -> FieldView {
        self@
    }
}

impl Clone for Field {
    fn clone(&self) -> (out: Self)
        ensures
            out@ == self@,
    {
        Field { ty: self.ty.clone() }
    }
}

/// A named, struct-style field: its name and its declared type.
#[derive(Debug)]
pub struct NamedField {
    pub name: String,
    pub ty: String,
}

/// The mathematical value of a [`NamedField`].
pub struct NamedFieldView {
    pub name: Seq<char>,
    pub ty: Seq<char>,
}

impl View for NamedField {
    type V = NamedFieldView;

    open spec fn view(&self) -> NamedFieldView {
        NamedFieldView { name: self.name@, ty: self.ty@ }
    }
}

impl DeepView for NamedField {
    type V = NamedFieldView;

    open spec fn deep_view(&self) -> NamedFieldView {
        self@
    }
}

impl Clone for NamedField {
    fn clone(&self) -> (out: Self)
        ensures
            out@ == self@,
    {
        NamedField { name: self.name.clone(), ty: self.ty.clone() }
    }
}

/// The shape of one variant: no fields, unnamed positional fields, or named
/// fields.
#[allow(inconsistent_fields)]
#[derive(Debug)]
pub enum Shape {
    Unit,
    Tuple { fields: Vec<Field> },
    Struct { fields: Vec<NamedField> },
}

/// The mathematical value of a [`Shape`].
#[allow(inconsistent_fields)]
pub enum ShapeView {
    Unit,
    Tuple { fields: Seq<FieldView> },
    Struct { fields: Seq<NamedFieldView> },
}

impl View for Shape {
    type V = ShapeView;

    open spec fn view(&self) -> ShapeView {
        match self {
            Shape::Unit => ShapeView::Unit,
            Shape::Tuple { fields } => ShapeView::Tuple { fields: fields.deep_view() },
            Shape::Struct { fields } => ShapeView::Struct { fields: fields.deep_view() },
        }
    }
}

impl DeepView for Shape {
    type V = ShapeView;

    open spec fn deep_view(&self) -> ShapeView {
        self@
    }
}

fn clone_fields(fields: &Vec<Field>) -> (out: Vec<Field>)
    ensures
        out.deep_view() == fields.deep_view(),
{
    let mut out: Vec<Field> = Vec::new();
    let mut i: usize = 0;
    while i < fields.len()
        invariant
            i <= fields@.len(),
            out@.len() == i,
            forall|j: int| 0 <= j < i ==> #[trigger] out@[j]@ == fields@[j]@,
        decreases fields@.len() - i,
    {
        out.push(fields[i].clone());
        i = i + 1;
    }
    proof {
        assert(out.deep_view() =~= fields.deep_view());
    }
    out
}

fn clone_named_fields(fields: &Vec<NamedField>) -> (out: Vec<NamedField>)
    ensures
        out.deep_view() == fields.deep_view(),
{
    let mut out: Vec<NamedField> = Vec::new();
    let mut i: usize = 0;
    while i < fields.len()
        invariant
            i <= fields@.len(),
            out@.len() == i,
            forall|j: int| 0 <= j < i ==> #[trigger] out@[j]@ == fields@[j]@,
        decreases fields@.len() - i,
    {
        out.push(fields[i].clone());
        i = i + 1;
    }
    proof {
        assert(out.deep_view() =~= fields.deep_view());
    }
    out
}

impl Clone for Shape {
    fn clone(&self) -> (out: Self)
        ensures
            out@ == self@,
    {
        match self {
            Shape::Unit => Shape::Unit,
            Shape::Tuple { fields } => Shape::Tuple { fields: clone_fields(fields) },
            Shape::Struct { fields } => Shape::Struct { fields: clone_named_fields(fields) },
        }
    }
}

/// One arm of the enum: its declared name and its shape.
#[derive(Debug)]
pub struct Variant {
    pub name: String,
    pub shape: Shape,
}

/// The mathematical value of a [`Variant`].
pub struct VariantView {
    pub name: Seq<char>,
    pub shape: ShapeView,
}

impl View for Variant {
    type V = VariantView;

    open spec fn view(&self) -> VariantView {
        VariantView { name: self.name@, shape: self.shape@ }
    }
}

impl DeepView for Variant {
    type V = VariantView;

    open spec fn deep_view(&self) -> VariantView {
        self@
    }
}

impl Clone for Variant {
    fn clone(&self) -> (out: Self)
        ensures
            out@ == self@,
    {
        Variant { name: self.name.clone(), shape: self.shape.clone() }
    }
}

/// The enum being processed: its name and its ordered variant sequence.
/// Variant names are assumed unique — the host language enforces that for a
/// parsed declaration — and the engine does not re-validate them; a known
/// limitation is that duplicate variant names would yield methods with
/// colliding names.
#[derive(Debug)]
pub struct TypeDeclaration {
    pub name: String,
    pub variants: Vec<Variant>,
}

/// The mathematical value of a [`TypeDeclaration`].
pub struct TypeDeclarationView {
    pub name: Seq<char>,
    pub variants: Seq<VariantView>,
}

impl View for TypeDeclaration {
    type V = TypeDeclarationView;

    open spec fn view(&self) -> TypeDeclarationView {
        TypeDeclarationView { name: self.name@, variants: self.variants.deep_view() }
    }
}

impl DeepView for TypeDeclaration {
    type V = TypeDeclarationView;

    open spec fn deep_view(&self) -> TypeDeclarationView {
        self@
    }
}

/// A parsed declaration as handed to a derivation request. Only enumerated
/// types can be derived from; any other declaration is kept just by name so
/// the failure can report it.
pub enum Declaration {
    Enumeration(TypeDeclaration),
    Other { name: String },
}

/// The mathematical value of a [`Declaration`].
pub enum DeclarationView {
    Enumeration(TypeDeclarationView),
    Other { name: Seq<char> },
}

impl View for Declaration {
    type V = DeclarationView;

    open spec fn view(&self) -> DeclarationView {
        match self {
            Declaration::Enumeration(d) => DeclarationView::Enumeration(d@),
            Declaration::Other { name } => DeclarationView::Other { name: name@ },
        }
    }
}

impl DeepView for Declaration {
    type V = DeclarationView;

    open spec fn deep_view(&self) -> DeclarationView {
        self@
    }
}

} // verus!
