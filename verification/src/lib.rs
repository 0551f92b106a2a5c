//! Derivation engine for enum accessor methods.
//!
//! Given the syntactic description of an enum — its name and its ordered list
//! of variants, each of unit, tuple or struct shape — this library computes
//! the accessor and predicate methods that should be attached to the enum:
//! `as_*` getters returning references, `into_*` getters consuming the value,
//! `to_*` getters returning duplicates, and `is_*` predicates. The methods are
//! produced as structured definitions; turning them back into source text, and
//! parsing source text into a declaration, are left to a thin unverified
//! adapter around the library.

use vstd::prelude::*;

pub mod classify;
pub mod decl;
pub mod eval;
pub mod getters;
pub mod is_a;
pub mod method;
pub mod util;

verus! {

use crate::decl::{Declaration, DeclarationView, TypeDeclarationView};
use crate::getters::{
    getter_methods, impl_enum_as_getters, impl_enum_into_getters, impl_enum_to_getters,
};
use crate::is_a::{impl_enum_is_a, impl_struct_enum_is_a, impl_unit_enum_is_a, predicate_methods};
use crate::method::{Family, MethodBlock, MethodBlockView, UnsupportedShapeError};

/// The method-definition block a getter derivation of family `f` attaches
/// to an enum.
pub open spec fn getter_block(f: Family, d: TypeDeclarationView) -> MethodBlockView {
    MethodBlockView { target_name: d.name, methods: getter_methods(f, d.variants) }
}

/// The method-definition block the predicate derivation attaches to an
/// enum.
pub open spec fn is_a_block(d: TypeDeclarationView) -> MethodBlockView {
    MethodBlockView { target_name: d.name, methods: predicate_methods(d.variants) }
}

/// Entry point for the as-getter derivation: for an enum declaration,
/// return its `as_*` method block; for any other declaration, fail with
/// [`UnsupportedShapeError`] naming it.
pub fn enum_as_getters(decl: &Declaration) -> (out: Result<MethodBlock, UnsupportedShapeError>)
    ensures
        decl@ matches DeclarationView::Enumeration(d) ==> out matches Ok(b) && b@ == getter_block(
            Family::AsGetter,
            d,
        ),
        decl@ matches DeclarationView::Other { name } ==> out matches Err(e) && e@ == name,
{
    match decl {
        Declaration::Enumeration(d) => Ok(
            MethodBlock { target_name: d.name.clone(), methods: impl_enum_as_getters(d) },
        ),
        Declaration::Other { name } => Err(UnsupportedShapeError { name: name.clone() }),
    }
}

/// Entry point for the into-getter derivation: for an enum declaration,
/// return its `into_*` method block; for any other declaration, fail with
/// [`UnsupportedShapeError`] naming it.
pub fn enum_into_getters(decl: &Declaration) -> (out: Result<MethodBlock, UnsupportedShapeError>)
    ensures
        decl@ matches DeclarationView::Enumeration(d) ==> out matches Ok(b) && b@ == getter_block(
            Family::IntoGetter,
            d,
        ),
        decl@ matches DeclarationView::Other { name } ==> out matches Err(e) && e@ == name,
{
    match decl {
        Declaration::Enumeration(d) => Ok(
            MethodBlock { target_name: d.name.clone(), methods: impl_enum_into_getters(d) },
        ),
        Declaration::Other { name } => Err(UnsupportedShapeError { name: name.clone() }),
    }
}

/// Entry point for the to-getter derivation: for an enum declaration,
/// return its `to_*` method block; for any other declaration, fail with
/// [`UnsupportedShapeError`] naming it.
pub fn enum_to_getters(decl: &Declaration) -> (out: Result<MethodBlock, UnsupportedShapeError>)
    ensures
        decl@ matches DeclarationView::Enumeration(d) ==> out matches Ok(b) && b@ == getter_block(
            Family::ToGetter,
            d,
        ),
        decl@ matches DeclarationView::Other { name } ==> out matches Err(e) && e@ == name,
{
    match decl {
        Declaration::Enumeration(d) => Ok(
            MethodBlock { target_name: d.name.clone(), methods: impl_enum_to_getters(d) },
        ),
        Declaration::Other { name } => Err(UnsupportedShapeError { name: name.clone() }),
    }
}

/// Entry point for the predicate derivation: for an enum declaration,
/// return one combined `is_*` method block covering every variant shape —
/// tuple, struct, then unit variants; for any other declaration, fail with
/// [`UnsupportedShapeError`] naming it.
pub fn enum_is_a(decl: &Declaration) -> (out: Result<MethodBlock, UnsupportedShapeError>)
    ensures
        decl@ matches DeclarationView::Enumeration(d) ==> out matches Ok(b) && b@ == is_a_block(d),
        decl@ matches DeclarationView::Other { name } ==> out matches Err(e) && e@ == name,
{
    match decl {
        Declaration::Enumeration(d) => {
            let mut methods = impl_enum_is_a(d);
            let mut for_structs = impl_struct_enum_is_a(d);
            let mut for_units = impl_unit_enum_is_a(d);
            let ghost from_tuples = methods.deep_view();
            let ghost from_structs = for_structs.deep_view();
            let ghost from_units = for_units.deep_view();
            methods.append(&mut for_structs);
            methods.append(&mut for_units);
            proof {
                assert(methods.deep_view() =~= from_tuples + from_structs + from_units);
            }
            Ok(MethodBlock { target_name: d.name.clone(), methods })
        },
        Declaration::Other { name } => Err(UnsupportedShapeError { name: name.clone() }),
    }
}

} // verus!
