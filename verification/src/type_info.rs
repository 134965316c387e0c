//! The assembler: the displayed form and the constraint of a hint, put
//! together as the record that the emitter takes.

use vstd::prelude::*;
use crate::constraint::constraint_of;
use crate::constraint::hint_to_type_constraint;
use crate::constraint::Constraint;
use crate::constraint::ConstraintView;
use crate::display::display;
use crate::display::all_well_formed;
use crate::display::fmt_hint;
use crate::display::well_formed;
use crate::error::LoweringError;
use crate::flags::TypeConstraintFlags;
use crate::hint::is_typedef;
use crate::hint::Hint;
use crate::hint::Kind;
use crate::names;
use crate::nullability::add_nullable;
use crate::nullability::try_add_nullable;
use crate::nullability::with_nullable;
use crate::nullability::with_nullable_if_admitted;
use crate::text::contains_name;
use crate::text::names_of;
use crate::text::optional_string;
use crate::text::str_eq;

verus! {

/// The record for one occurrence of a hint: the string shown for it and
/// the constraint that enforces it.
#[derive(Clone, Debug, PartialEq, Eq)]
pub struct TypeInfo {
    pub user_type: Option<String>,
    pub type_constraint: Constraint,
}

/// A record with its strings as sequences of characters.
pub struct TypeInfoView {
    pub user_type: Option<Seq<char>>,
    pub type_constraint: ConstraintView,
}

impl View for TypeInfo {
    type V = TypeInfoView;

    open spec fn view(&self) -> TypeInfoView {
        TypeInfoView {
            user_type: optional_string(self.user_type),
            type_constraint: self.type_constraint@,
        }
    }
}

impl TypeInfo {
    pub fn new(user_type: Option<String>, type_constraint: Constraint) -> (r: TypeInfo)
        ensures
            r.user_type == user_type,
            r.type_constraint == type_constraint,
    {
        TypeInfo { user_type, type_constraint }
    }
}

/// The records of a list, each by its view.
pub open spec fn type_infos_of(infos: Seq<TypeInfo>) -> Seq<TypeInfoView> {
    Seq::new(infos.len(), |i: int| infos[i]@)
}

/// Whether the hint of a parameter is simple. A simple hint keeps none of
/// the flags that resolution gave it. Wrappers, type constants, function
/// types, `dynamic`, `nonnull` and `mixed` are not simple; a named type is
/// simple without arguments, unless it names one of those three or a generic
/// parameter; a bare type parameter is simple unless it is a generic
/// parameter in scope; every other form is simple.
pub open spec fn is_simple(tparams: Seq<Seq<char>>, h: Hint) -> bool {
    match h {
        Hint::Like(_)
        | Hint::Soft(_)
        | Hint::Nullable(_)
        | Hint::Access(_, _)
        | Hint::Fun(_, _)
        | Hint::Dynamic
        | Hint::Nonnull
        | Hint::Mixed => false,
        Hint::Apply(name, args) => {
            &&& args@.len() == 0
            &&& name.name@ != names::HH_DYNAMIC@
            &&& name.name@ != names::HH_NONNULL@
            &&& name.name@ != names::HH_MIXED@
            &&& !tparams.contains(name.name@)
        },
        Hint::Abstr(name) => !tparams.contains(name.name@),
        Hint::Prim(_)
        | Hint::Tuple(_)
        | Hint::ClassPtr(_, _)
        | Hint::Shape(_)
        | Hint::Refinement(_)
        | Hint::Wildcard
        | Hint::VecOrDict(_, _)
        | Hint::This
        | Hint::Nothing
        | Hint::Union(_)
        | Hint::Intersection(_)
        | Hint::FunContext(_)
        | Hint::Var(_) => true,
    }
}

/// The record of a hint shown in full, with the target `name` and the
/// flags `flags`.
pub open spec fn type_info_with(
    tparams: Seq<Seq<char>>,
    h: Hint,
    name: Option<Seq<char>>,
    flags: TypeConstraintFlags,
) -> TypeInfoView {
    TypeInfoView {
        user_type: Some(display(tparams, false, h)),
        type_constraint: ConstraintView { name, flags },
    }
}

/// The record of the hint of a parameter. A simple hint starts from no
/// flags; then the nullability of the declaration is added where the hint
/// takes it.
pub open spec fn param_type_info(
    kind: Kind,
    unwrap: bool,
    nullable: bool,
    tparams: Seq<Seq<char>>,
    h: Hint,
) -> TypeInfoView {
    let tc = constraint_of(kind, tparams, unwrap, h);
    let flags = if is_simple(tparams, h) {
        TypeConstraintFlags::no_flags()
    } else {
        tc.flags
    };
    type_info_with(tparams, h, tc.name, with_nullable_if_admitted(nullable, h, flags))
}

/// The record of a hint. A parameter goes by `param_type_info`. Elsewhere
/// the resolved flags stand, with the upper-bound flag added for a bound;
/// the nullability of the declaration is added always for a type alias, and
/// where the hint takes it for every other kind.
pub open spec fn type_info_of(
    kind: Kind,
    unwrap: bool,
    nullable: bool,
    tparams: Seq<Seq<char>>,
    h: Hint,
) -> TypeInfoView {
    if kind is Param {
        param_type_info(kind, unwrap, nullable, tparams, h)
    } else {
        let tc = constraint_of(kind, tparams, unwrap, h);
        let flags = if kind is UpperBound {
            TypeConstraintFlags::upper_bound().union(tc.flags)
        } else {
            tc.flags
        };
        type_info_with(
            tparams,
            h,
            tc.name,
            if kind is TypeDef {
                with_nullable(nullable, flags)
            } else {
                with_nullable_if_admitted(nullable, h, flags)
            },
        )
    }
}

/// The alternatives of a hint: the members of a union, or the hint alone.
pub open spec fn alternatives(h: Hint) -> Seq<Hint> {
    match h {
        Hint::Union(members) => members@,
        _ => seq![h],
    }
}

/// The records of a list of hints, in order.
pub open spec fn type_infos_of_each(
    kind: Kind,
    unwrap: bool,
    nullable: bool,
    tparams: Seq<Seq<char>>,
    hints: Seq<Hint>,
) -> Seq<TypeInfoView> {
    Seq::new(hints.len(), |i: int| type_info_of(kind, unwrap, nullable, tparams, hints[i]))
}

/// The class that a hint names: the canonical form of a named type, and a
/// fixed stand-in for every other form.
pub open spec fn class_of(h: Hint) -> Seq<char> {
    match h {
        Hint::Apply(name, _) => name.mangled@,
        _ => names::TYPE_IS_NOT_CLASS@,
    }
}

/// Whether the hint of a parameter is simple.
pub fn is_simple_hint(tparams: &[&str], hint: &Hint) -> (r: bool)
    ensures
        r == is_simple(names_of(tparams), *hint),
{
    match hint {
        Hint::Like(_)
        | Hint::Soft(_)
        | Hint::Nullable(_)
        | Hint::Access(_, _)
        | Hint::Fun(_, _)
        | Hint::Dynamic
        | Hint::Nonnull
        | Hint::Mixed => false,
        Hint::Apply(name, args) => {
            let s = name.name.as_str();
            args.len() == 0 && !str_eq(s, names::HH_DYNAMIC) && !str_eq(s, names::HH_NONNULL)
                && !str_eq(s, names::HH_MIXED) && !contains_name(tparams, s)
        },
        Hint::Abstr(name) => !contains_name(tparams, name.name.as_str()),
        Hint::Prim(_)
        | Hint::Tuple(_)
        | Hint::ClassPtr(_, _)
        | Hint::Shape(_)
        | Hint::Refinement(_)
        | Hint::Wildcard
        | Hint::VecOrDict(_, _)
        | Hint::This
        | Hint::Nothing
        | Hint::Union(_)
        | Hint::Intersection(_)
        | Hint::FunContext(_)
        | Hint::Var(_) => true,
    }
}

/// Shows the hint in full and puts the string together with the target
/// and the flags. Fails exactly when the hint is not well formed.
pub fn make_type_info(
    tparams: &[&str],
    h: &Hint,
    tc_name: Option<String>,
    tc_flags: TypeConstraintFlags,
) -> (r: Result<TypeInfo, LoweringError>)
    ensures
        r is Ok <==> well_formed(false, *h),
        r matches Ok(info) ==> info@ == type_info_with(
            names_of(tparams),
            *h,
            optional_string(tc_name),
            tc_flags,
        ),
        r matches Err(e) ==> e is MalformedTypeConstant,
{
    match fmt_hint(tparams, false, h) {
        Ok(shown) => Ok(
            TypeInfo {
                user_type: Some(shown),
                type_constraint: Constraint { name: tc_name, flags: tc_flags },
            },
        ),
        Err(e) => Err(e),
    }
}

/// The record of the hint of a parameter. Fails exactly when the hint is
/// not well formed.
pub fn param_hint_to_type_info(
    kind: &Kind,
    skipawaitable: bool,
    nullable: bool,
    tparams: &[&str],
    hint: &Hint,
) -> (r: Result<TypeInfo, LoweringError>)
    ensures
        r is Ok <==> well_formed(false, *hint),
        r matches Ok(info) ==> info@ == param_type_info(
            *kind,
            skipawaitable,
            nullable,
            names_of(tparams),
            *hint,
        ),
        r matches Err(e) ==> e is MalformedTypeConstant,
{
    let simple = is_simple_hint(tparams, hint);
    let tc = hint_to_type_constraint(kind, tparams, skipawaitable, hint);
    let flags = try_add_nullable(
        nullable,
        hint,
        if simple {
            TypeConstraintFlags::no_flags()
        } else {
            tc.flags
        },
    );
    make_type_info(tparams, hint, tc.name, flags)
}

/// The record of a hint in the usage `kind`: the string shown for it and
/// its constraint.
///
/// Fails exactly when the hint is not well formed: a type constant that is
/// shown is read from something that is no named type.
pub fn hint_to_type_info(
    kind: &Kind,
    skipawaitable: bool,
    nullable: bool,
    tparams: &[&str],
    hint: &Hint,
) -> (r: Result<TypeInfo, LoweringError>)
    ensures
        r is Ok <==> well_formed(false, *hint),
        r matches Ok(info) ==> info@ == type_info_of(
            *kind,
            skipawaitable,
            nullable,
            names_of(tparams),
            *hint,
        ),
        r matches Err(e) ==> e is MalformedTypeConstant,
{
    if matches!(kind, Kind::Param) {
        return param_hint_to_type_info(kind, skipawaitable, nullable, tparams, hint);
    }
    let tc = hint_to_type_constraint(kind, tparams, skipawaitable, hint);
    let flags = match kind {
        Kind::UpperBound => TypeConstraintFlags::upper_bound().union(tc.flags),
        _ => tc.flags,
    };
    let flags = if is_typedef(kind) {
        add_nullable(nullable, flags)
    } else {
        try_add_nullable(nullable, hint, flags)
    };
    make_type_info(tparams, hint, tc.name, flags)
}

/// The records of the alternatives of a hint: one for each member of a
/// union, in order, or one for any other hint.
///
/// Fails exactly when one of the alternatives is not well formed.
pub fn hint_to_type_info_union(
    kind: &Kind,
    skipawaitable: bool,
    nullable: bool,
    tparams: &[&str],
    hint: &Hint,
) -> (r: Result<Vec<TypeInfo>, LoweringError>)
    ensures
        r is Ok <==> all_well_formed(alternatives(*hint)),
        r matches Ok(infos) ==> type_infos_of(infos@) == type_infos_of_each(
            *kind,
            skipawaitable,
            nullable,
            names_of(tparams),
            alternatives(*hint),
        ),
        r matches Err(e) ==> e is MalformedTypeConstant,
{
    let mut result: Vec<TypeInfo> = Vec::new();
    match hint {
        Hint::Union(hints) => {
            let mut i: usize = 0;
            while i < hints.len()
                invariant
                    i <= hints.len(),
                    alternatives(*hint) == hints@,
                    result@.len() == i,
                    forall|j: int| 0 <= j < i ==> well_formed(false, #[trigger] hints@[j]),
                    forall|j: int|
                        0 <= j < i ==> (#[trigger] result@[j])@ == type_info_of(
                            *kind,
                            skipawaitable,
                            nullable,
                            names_of(tparams),
                            hints@[j],
                        ),
                decreases hints.len() - i,
            {
                match hint_to_type_info(kind, skipawaitable, nullable, tparams, &hints[i]) {
                    Ok(info) => {
                        result.push(info);
                    },
                    Err(e) => {
                        return Err(e);
                    },
                }
                i += 1;
            }
            proof {
                assert(type_infos_of(result@) =~= type_infos_of_each(
                    *kind,
                    skipawaitable,
                    nullable,
                    names_of(tparams),
                    hints@,
                ));
            }
        },
        _ => {
            assert(alternatives(*hint)[0] == *hint);
            match hint_to_type_info(kind, skipawaitable, nullable, tparams, hint) {
                Ok(info) => {
                    result.push(info);
                    proof {
                        assert(type_infos_of(result@) =~= type_infos_of_each(
                            *kind,
                            skipawaitable,
                            nullable,
                            names_of(tparams),
                            alternatives(*hint),
                        ));
                    }
                },
                Err(e) => {
                    return Err(e);
                },
            }
        },
    }
    Ok(result)
}

/// The class that a hint names.
pub fn hint_to_class(hint: &Hint) -> (r: String)
    ensures
        r@ == class_of(*hint),
{
    match hint {
        Hint::Apply(name, _) => name.mangled.clone(),
        _ => String::from_str(names::TYPE_IS_NOT_CLASS),
    }
}

} // verus!
