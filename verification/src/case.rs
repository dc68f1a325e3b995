//! Case projections of a validated unit name.
//!
//! The camel-, kebab- and Pascal-case projections are computed by the
//! `convert_case` crate. Each projection is a pure function of the input
//! characters, so each gets a name that the rest of the contracts build on.

use convert_case::{Case, Casing};
use vstd::prelude::*;

verus! {

/// The camel-case projection that `convert_case` computes with `Case::Camel`.
pub uninterp spec fn camel_of(s: Seq<char>) -> Seq<char>;

/// The kebab-case projection that `convert_case` computes with `Case::Kebab`.
pub uninterp spec fn kebab_of(s: Seq<char>) -> Seq<char>;

/// The Pascal-case projection that `convert_case` computes with `Case::Pascal`.
pub uninterp spec fn pascal_of(s: Seq<char>) -> Seq<char>;

/// Relies on `convert_case`'s `Casing::to_case` with `Case::Camel`:
/// the result depends on the input characters alone.
#[verifier::external_body]
pub(crate) fn to_camel(name: &str) -> (r: String)
    ensures
        r@ == camel_of(name@),
{
    name.to_case(Case::Camel)
}

/// Relies on `convert_case`'s `Casing::to_case` with `Case::Kebab`:
/// the result depends on the input characters alone.
#[verifier::external_body]
pub(crate) fn to_kebab(name: &str) -> (r: String)
    ensures
        r@ == kebab_of(name@),
{
    name.to_case(Case::Kebab)
}

/// Relies on `convert_case`'s `Casing::to_case` with `Case::Pascal`:
/// the result depends on the input characters alone.
#[verifier::external_body]
pub(crate) fn to_pascal(name: &str) -> (r: String)
    ensures
        r@ == pascal_of(name@),
{
    name.to_case(Case::Pascal)
}

} // verus!
