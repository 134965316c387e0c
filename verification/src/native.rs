//! The constraint of the return type of a native function.

use vstd::prelude::*;
use crate::constraint::named;
use crate::constraint::unconstrained;
use crate::constraint::Constraint;
use crate::flags::nullable_pair;
use crate::flags::TypeConstraintFlags;
use crate::hint::Hint;
use crate::names;
use crate::text::contains_name;
use crate::text::names_of;
use crate::text::str_eq;
use crate::type_info::TypeInfo;
use crate::type_info::TypeInfoView;

verus! {

/// The flags that the form of a hint gives: the nullable pair through each
/// nullable wrapper, the soft flag through each soft wrapper, and at the leaf
/// `flags`, with the type-constant flag for a type constant and the
/// type-variable flag for a named generic parameter.
pub open spec fn flags_of_form(
    tparams: Seq<Seq<char>>,
    flags: TypeConstraintFlags,
    h: Hint,
) -> TypeConstraintFlags
    decreases h,
{
    match h {
        Hint::Nullable(inner) => nullable_pair().union(flags_of_form(tparams, flags, *inner)),
        Hint::Soft(inner) => TypeConstraintFlags::soft().union(
            flags_of_form(tparams, flags, *inner),
        ),
        Hint::Access(_, _) => TypeConstraintFlags::type_constant().union(flags),
        Hint::Apply(name, _) => if tparams.contains(name.name@) {
            TypeConstraintFlags::type_var().union(flags)
        } else {
            flags
        },
        Hint::Abstr(_)
        | Hint::ClassPtr(_, _)
        | Hint::Dynamic
        | Hint::Fun(_, _)
        | Hint::FunContext(_)
        | Hint::Intersection(_)
        | Hint::Like(_)
        | Hint::Mixed
        | Hint::Nonnull
        | Hint::Nothing
        | Hint::Prim(_)
        | Hint::Refinement(_)
        | Hint::Shape(_)
        | Hint::This
        | Hint::Tuple(_)
        | Hint::Union(_)
        | Hint::Var(_)
        | Hint::VecOrDict(_, _)
        | Hint::Wildcard => flags,
    }
}

/// The record of the return type of a native function, from the record
/// `info` of its hint and the hint itself.
///
/// Without a hint or without a displayed form, the constraint is `void`
/// without flags. A return type shown as `mixed` or as a callable is not
/// enforced. One shown as `void` is constrained as `void`, with the flags
/// that the form of the hint gives. Any other record stands as it is. The
/// displayed form is never changed.
pub open spec fn native_type_info(
    tparams: Seq<Seq<char>>,
    ret: Option<Hint>,
    info: TypeInfoView,
) -> TypeInfoView {
    match (info.user_type, ret) {
        (Some(shown), Some(h)) => if shown == names::BUILTIN_NAME_MIXED@ || shown
            == names::CALLABLE@ {
            TypeInfoView { user_type: info.user_type, type_constraint: unconstrained() }
        } else if shown == names::BUILTIN_NAME_VOID@ {
            TypeInfoView {
                user_type: info.user_type,
                type_constraint: named(
                    names::BUILTIN_NAME_VOID@,
                    flags_of_form(tparams, TypeConstraintFlags::no_flags(), h),
                ),
            }
        } else {
            info
        },
        _ => TypeInfoView {
            user_type: info.user_type,
            type_constraint: named(names::BUILTIN_NAME_VOID@, TypeConstraintFlags::no_flags()),
        },
    }
}

/// The flags that the form of a hint gives, starting from `flags` at the
/// leaf.
pub fn get_flags(tparams: &[&str], flags: TypeConstraintFlags, hint: &Hint) -> (r:
    TypeConstraintFlags)
    ensures
        r == flags_of_form(names_of(tparams), flags, *hint),
    decreases hint,
{
    match hint {
        Hint::Nullable(inner) => TypeConstraintFlags::nullable().union(
            TypeConstraintFlags::display_nullable(),
        ).union(get_flags(tparams, flags, inner)),
        Hint::Soft(inner) => TypeConstraintFlags::soft().union(get_flags(tparams, flags, inner)),
        Hint::Access(_, _) => TypeConstraintFlags::type_constant().union(flags),
        Hint::Apply(name, _) => {
            if contains_name(tparams, name.name.as_str()) {
                TypeConstraintFlags::type_var().union(flags)
            } else {
                flags
            }
        },
        Hint::Abstr(_)
        | Hint::ClassPtr(_, _)
        | Hint::Dynamic
        | Hint::Fun(_, _)
        | Hint::FunContext(_)
        | Hint::Intersection(_)
        | Hint::Like(_)
        | Hint::Mixed
        | Hint::Nonnull
        | Hint::Nothing
        | Hint::Prim(_)
        | Hint::Refinement(_)
        | Hint::Shape(_)
        | Hint::This
        | Hint::Tuple(_)
        | Hint::Union(_)
        | Hint::Var(_)
        | Hint::VecOrDict(_, _)
        | Hint::Wildcard => flags,
    }
}

/// The record of the return type of a native function, from the record
/// `ti` of its hint and the hint itself.
pub fn emit_type_constraint_for_native_function(
    tparams: &[&str],
    ret_opt: Option<&Hint>,
    ti: TypeInfo,
) -> (r: TypeInfo)
    ensures
        r@ == native_type_info(
            names_of(tparams),
            match ret_opt {
                Some(h) => Some(*h),
                None => None,
            },
            ti@,
        ),
{
    let constraint = match (&ti.user_type, ret_opt) {
        (Some(shown), Some(h)) => {
            let t = shown.as_str();
            if str_eq(t, names::BUILTIN_NAME_MIXED) || str_eq(t, names::CALLABLE) {
                Constraint::default()
            } else if str_eq(t, names::BUILTIN_NAME_VOID) {
                Constraint::named(
                    names::BUILTIN_NAME_VOID,
                    get_flags(tparams, TypeConstraintFlags::no_flags(), h),
                )
            } else {
                return ti;
            }
        },
        _ => Constraint::named(names::BUILTIN_NAME_VOID, TypeConstraintFlags::no_flags()),
    };
    TypeInfo { user_type: ti.user_type, type_constraint: constraint }
}

} // verus!
