//! SQL types of the `postgres_types` crate, as far as column metadata uses
//! them.

use postgres_types::{Oid, Type};
use vstd::prelude::*;

verus! {

/// `postgres_types::Type`, a SQL type. Nothing is known of a value but what
/// `type_oid` says of it.
#[verifier::external_type_specification]
#[verifier::external_body]
pub struct ExType(postgres_types::Type);

/// The object identifier under which the protocol knows a type.
pub uninterp spec fn type_oid(ty: Type) -> u32;

/// `Type::oid` returns the type's object identifier: a constant for each
/// built-in type, the stored identifier for any other.
pub assume_specification[ Type::oid ](ty: &Type) -> (oid: Oid)
    ensures
        oid == type_oid(*ty),
;

/// `Type` derives `Clone`: the copy is the same type, with the same object
/// identifier.
pub assume_specification[ <Type as Clone>::clone ](ty: &Type) -> (copy: Type)
    ensures
        copy == *ty,
;

} // verus!
