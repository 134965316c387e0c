//! Whether the nullability of a declaration reaches the constraint of its
//! hint.

use vstd::prelude::*;
use crate::flags::nullable_pair;
use crate::flags::TypeConstraintFlags;
use crate::hint::Hint;
use crate::names;
use crate::text::str_eq;

verus! {

/// Whether a hint takes the nullability of its declaration. A type
/// constant, a function type, `dynamic`, `nonnull`, `mixed` and the wildcard
/// never do, by form or by name; a nullable type constant always does; any
/// other nullable hint does what the hint under it does; every other form
/// does.
pub open spec fn admits_nullable(h: Hint) -> bool
    decreases h,
{
    match h {
        Hint::Access(_, _)
        | Hint::Fun(_, _)
        | Hint::Dynamic
        | Hint::Nonnull
        | Hint::Mixed
        | Hint::Wildcard => false,
        Hint::Nullable(inner) => *inner is Access || admits_nullable(*inner),
        Hint::Apply(name, _) => name.name@ != names::HH_DYNAMIC@ && name.name@
            != names::HH_NONNULL@ && name.name@ != names::HH_MIXED@,
        Hint::Abstr(_)
        | Hint::ClassPtr(_, _)
        | Hint::FunContext(_)
        | Hint::Intersection(_)
        | Hint::Like(_)
        | Hint::Nothing
        | Hint::Prim(_)
        | Hint::Refinement(_)
        | Hint::Shape(_)
        | Hint::Soft(_)
        | Hint::This
        | Hint::Tuple(_)
        | Hint::Union(_)
        | Hint::Var(_)
        | Hint::VecOrDict(_, _) => true,
    }
}

/// `flags`, with the nullable pair added where `nullable` holds.
pub open spec fn with_nullable(nullable: bool, flags: TypeConstraintFlags) -> TypeConstraintFlags {
    if nullable {
        nullable_pair().union(flags)
    } else {
        flags
    }
}

/// `flags`, with the nullable pair added where `nullable` holds and the
/// hint takes it.
pub open spec fn with_nullable_if_admitted(
    nullable: bool,
    h: Hint,
    flags: TypeConstraintFlags,
) -> TypeConstraintFlags {
    with_nullable(nullable && admits_nullable(h), flags)
}

/// Whether a hint takes the nullability of its declaration.
pub fn can_be_nullable(hint: &Hint) -> (r: bool)
    ensures
        r == admits_nullable(*hint),
    decreases hint,
{
    match hint {
        Hint::Access(_, _)
        | Hint::Fun(_, _)
        | Hint::Dynamic
        | Hint::Nonnull
        | Hint::Mixed
        | Hint::Wildcard => false,
        Hint::Nullable(inner) => {
            match &**inner {
                Hint::Access(_, _) => true,
                _ => can_be_nullable(inner),
            }
        },
        Hint::Apply(name, _) => {
            let s = name.name.as_str();
            !str_eq(s, names::HH_DYNAMIC) && !str_eq(s, names::HH_NONNULL) && !str_eq(
                s,
                names::HH_MIXED,
            )
        },
        Hint::Abstr(_)
        | Hint::ClassPtr(_, _)
        | Hint::FunContext(_)
        | Hint::Intersection(_)
        | Hint::Like(_)
        | Hint::Nothing
        | Hint::Prim(_)
        | Hint::Refinement(_)
        | Hint::Shape(_)
        | Hint::Soft(_)
        | Hint::This
        | Hint::Tuple(_)
        | Hint::Union(_)
        | Hint::Var(_)
        | Hint::VecOrDict(_, _) => true,
    }
}

/// `flags`, with the nullable pair added where `nullable` holds.
pub fn add_nullable(nullable: bool, flags: TypeConstraintFlags) -> (r: TypeConstraintFlags)
    ensures
        r == with_nullable(nullable, flags),
{
    if nullable {
        TypeConstraintFlags::nullable().union(TypeConstraintFlags::display_nullable()).union(flags)
    } else {
        flags
    }
}

/// `flags`, with the nullable pair added where `nullable` holds and the
/// hint takes it.
pub fn try_add_nullable(nullable: bool, hint: &Hint, flags: TypeConstraintFlags) -> (r:
    TypeConstraintFlags)
    ensures
        r == with_nullable_if_admitted(nullable, *hint, flags),
{
    add_nullable(nullable && can_be_nullable(hint), flags)
}

} // verus!
