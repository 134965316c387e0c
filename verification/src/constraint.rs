//! The constraint resolver: the name and the flags by which the runtime
//! enforces a hint.

use vstd::prelude::*;
use crate::display::hint_to_string;
use crate::display::keyword_of;
use crate::flags::nullable_pair;
use crate::flags::TypeConstraintFlags;
use crate::hint::is_typedef;
use crate::hint::Hint;
use crate::hint::Kind;
use crate::hint::Tprim;
use crate::names;
use crate::text::contains_name;
use crate::text::eq_ignore_ascii_case;
use crate::text::matches_ignoring_ascii_case;
use crate::text::names_of;
use crate::text::optional_string;
use crate::text::str_eq;

verus! {

/// What the runtime enforces: a target and a set of flags. The target is the
/// name of a class, of a built-in type or of a generic parameter; without a
/// target, nothing is checked against a name.
#[derive(Clone, Debug, PartialEq, Eq)]
pub struct Constraint {
    pub name: Option<String>,
    pub flags: TypeConstraintFlags,
}

/// A constraint with its name as a sequence of characters.
pub struct ConstraintView {
    pub name: Option<Seq<char>>,
    pub flags: TypeConstraintFlags,
}

impl View for Constraint {
    type V = ConstraintView;

    open spec fn view(&self) -> ConstraintView {
        ConstraintView { name: optional_string(self.name), flags: self.flags }
    }
}

impl ConstraintView {
    /// Neither a target nor a flag.
    pub open spec fn is_empty(self) -> bool {
        self.name is None && self.flags.is_empty()
    }
}

/// The constraint that enforces nothing: no target, no flags.
pub open spec fn unconstrained() -> ConstraintView {
    ConstraintView { name: None, flags: TypeConstraintFlags::no_flags() }
}

/// The constraint with the target `name` and the flags `flags`.
pub open spec fn named(name: Seq<char>, flags: TypeConstraintFlags) -> ConstraintView {
    ConstraintView { name: Some(name), flags }
}

impl Constraint {
    pub fn new(name: Option<String>, flags: TypeConstraintFlags) -> (r: Constraint)
        ensures
            r.name == name,
            r.flags == flags,
    {
        Constraint { name, flags }
    }

    /// The constraint with the target `name` and the flags `flags`.
    pub fn named(name: &str, flags: TypeConstraintFlags) -> (r: Constraint)
        ensures
            r@ == named(name@, flags),
    {
        Constraint { name: Some(String::from_str(name)), flags }
    }
}

impl Default for Constraint {
    /// The constraint that enforces nothing.
    fn default() -> (r: Constraint)
        ensures
            r@ == unconstrained(),
    {
        Constraint { name: None, flags: TypeConstraintFlags::no_flags() }
    }
}

/// Whether `name` is the class of an asynchronous result.
pub open spec fn is_awaitable_name(name: Seq<char>) -> bool {
    name == names::AWAITABLE@
}

/// Whether a hint is `void`: the primitive, or the named type without
/// arguments.
pub open spec fn is_void(h: Hint) -> bool {
    match h {
        Hint::Prim(prim) => prim is Tvoid,
        Hint::Apply(name, args) => name.name@ == names::HH_VOID@ && args@.len() == 0,
        _ => false,
    }
}

/// The constraint of a type applied by name. A generic parameter is marked
/// as a type variable and keeps its name as the target only where `kind`
/// says so; any other name gives its canonical form as the target.
pub open spec fn type_application(
    tparams: Seq<Seq<char>>,
    kind: Kind,
    name: Seq<char>,
    mangled: Seq<char>,
) -> ConstraintView {
    if tparams.contains(name) {
        named(
            if kind.keeps_type_var_name() {
                name
            } else {
                Seq::empty()
            },
            TypeConstraintFlags::type_var(),
        )
    } else {
        named(mangled, TypeConstraintFlags::no_flags())
    }
}

/// `flags` added to a constraint, unless the constraint is empty: a wrapper
/// round nothing enforces nothing.
pub open spec fn with_flags_if_non_empty(
    tc: ConstraintView,
    flags: TypeConstraintFlags,
) -> ConstraintView {
    if tc.is_empty() {
        tc
    } else {
        ConstraintView { name: tc.name, flags: flags.union(tc.flags) }
    }
}

/// Whether a named type without arguments enforces nothing: `dynamic`,
/// `mixed`, the class of an asynchronous result where it is unwrapped, and
/// `void` outside a type alias.
pub open spec fn is_unenforced_name(kind: Kind, unwrap: bool, name: Seq<char>) -> bool {
    ||| name == names::HH_DYNAMIC@
    ||| name == names::HH_MIXED@
    ||| (unwrap && is_awaitable_name(name))
    ||| (matches_ignoring_ascii_case(name, names::HH_VOID@) && !(kind is TypeDef))
}

/// Whether `name` is one of the two markers that stand for their argument.
pub open spec fn is_transparent_marker(name: Seq<char>) -> bool {
    name == names::POISON_MARKER@ || name == names::HH_FUNCTIONREF@
}

/// The constraint of a hint. `unwrap` asks for the awaited type in place of
/// the class of an asynchronous result; it holds for one such class only and
/// is cleared below it.
pub open spec fn constraint_of(
    kind: Kind,
    tparams: Seq<Seq<char>>,
    unwrap: bool,
    h: Hint,
) -> ConstraintView
    decreases h,
{
    match h {
        Hint::Dynamic
        | Hint::Fun(_, _)
        | Hint::Union(_)
        | Hint::Intersection(_)
        | Hint::Mixed
        | Hint::Wildcard => unconstrained(),
        Hint::Access(_, _) => named(Seq::empty(), TypeConstraintFlags::type_constant()),
        Hint::Shape(_) => named(names::BUILTIN_NAME_DARRAY@, TypeConstraintFlags::no_flags()),
        Hint::Tuple(_) => named(names::BUILTIN_NAME_VARRAY@, TypeConstraintFlags::no_flags()),
        Hint::Soft(inner) => with_flags_if_non_empty(
            constraint_of(kind, tparams, unwrap, *inner),
            TypeConstraintFlags::soft(),
        ),
        Hint::Like(inner) => constraint_of(kind, tparams, unwrap, *inner),
        Hint::Nullable(inner) => {
            let wrapped = with_flags_if_non_empty(
                constraint_of(kind, tparams, unwrap, *inner),
                nullable_pair(),
            );
            match *inner {
                Hint::Apply(name, args) => if unwrap && is_awaitable_name(name.name@)
                    && args@.len() == 0 {
                    unconstrained()
                } else if unwrap && is_awaitable_name(name.name@) && args@.len() == 1 {
                    constraint_of(kind, tparams, false, args@[0])
                } else {
                    wrapped
                },
                Hint::Soft(softened) => match *softened {
                    Hint::Apply(name, args) => if unwrap && is_awaitable_name(name.name@)
                        && args@.len() == 1 {
                        with_flags_if_non_empty(
                            constraint_of(kind, tparams, false, args@[0]),
                            TypeConstraintFlags::soft(),
                        )
                    } else {
                        wrapped
                    },
                    _ => wrapped,
                },
                _ => wrapped,
            }
        },
        Hint::Apply(name, args) => if args@.len() == 0 && is_unenforced_name(
            kind,
            unwrap,
            name.name@,
        ) {
            unconstrained()
        } else if args@.len() == 1 && unwrap && is_awaitable_name(name.name@) {
            if is_void(args@[0]) {
                unconstrained()
            } else {
                constraint_of(kind, tparams, false, args@[0])
            }
        } else if args@.len() == 1 && is_transparent_marker(name.name@) {
            constraint_of(kind, tparams, false, args@[0])
        } else {
            type_application(tparams, kind, name.name@, name.mangled@)
        },
        Hint::ClassPtr(_, _) => named(names::BUILTIN_NAME_CLASS@, TypeConstraintFlags::no_flags()),
        Hint::Abstr(name) => type_application(tparams, kind, name.name@, name.mangled@),
        Hint::Refinement(inner) => constraint_of(kind, tparams, unwrap, *inner),
        Hint::Nonnull
        | Hint::Nothing
        | Hint::Prim(_)
        | Hint::This
        | Hint::VecOrDict(_, _)
        | Hint::FunContext(_)
        | Hint::Var(_) => type_application(
            tparams,
            kind,
            keyword_of(h).unwrap(),
            keyword_of(h).unwrap(),
        ),
    }
}

/// Whether `name` is the class of an asynchronous result.
pub fn is_awaitable(name: &str) -> (r: bool)
    ensures
        r == is_awaitable_name(name@),
{
    str_eq(name, names::AWAITABLE)
}

/// Whether a hint is `void`: the primitive, or the named type without
/// arguments.
pub fn is_void_hint(h: &Hint) -> (r: bool)
    ensures
        r == is_void(*h),
{
    match h {
        Hint::Prim(prim) => matches!(prim, Tprim::Tvoid),
        Hint::Apply(name, args) => str_eq(name.name.as_str(), names::HH_VOID) && args.len() == 0,
        _ => false,
    }
}

/// The constraint of a type applied by name: `name` as the source spells
/// it, `mangled` its canonical form.
pub fn type_application_helper(tparams: &[&str], kind: &Kind, name: &str, mangled: &str) -> (r:
    Constraint)
    ensures
        r@ == type_application(names_of(tparams), *kind, name@, mangled@),
{
    if contains_name(tparams, name) {
        let target = match kind {
            Kind::Param | Kind::Return | Kind::Property => String::from_str(name),
            _ => String::new(),
        };
        Constraint { name: Some(target), flags: TypeConstraintFlags::type_var() }
    } else {
        Constraint { name: Some(String::from_str(mangled)), flags: TypeConstraintFlags::no_flags() }
    }
}

/// Resolves `hint` and adds `flags` to the result, unless the result is
/// empty.
pub fn make_tc_with_flags_if_non_empty_flags(
    kind: &Kind,
    tparams: &[&str],
    skipawaitable: bool,
    hint: &Hint,
    flags: TypeConstraintFlags,
) -> (r: Constraint)
    ensures
        r@ == with_flags_if_non_empty(
            constraint_of(*kind, names_of(tparams), skipawaitable, *hint),
            flags,
        ),
    decreases hint, 1int,
{
    let tc = hint_to_type_constraint(kind, tparams, skipawaitable, hint);
    if tc.name.is_none() && tc.flags.is_empty() {
        tc
    } else {
        Constraint { name: tc.name, flags: flags.union(tc.flags) }
    }
}

/// Resolves a hint to its constraint.
///
/// Every form is resolved, and resolution never fails.
pub fn hint_to_type_constraint(kind: &Kind, tparams: &[&str], skipawaitable: bool, h: &Hint) -> (r:
    Constraint)
    ensures
        r@ == constraint_of(*kind, names_of(tparams), skipawaitable, *h),
    decreases h, 0int,
{
    match h {
        Hint::Dynamic
        | Hint::Fun(_, _)
        | Hint::Union(_)
        | Hint::Intersection(_)
        | Hint::Mixed
        | Hint::Wildcard => Constraint::default(),
        Hint::Access(_, _) => Constraint {
            name: Some(String::new()),
            flags: TypeConstraintFlags::type_constant(),
        },
        Hint::Shape(_) => Constraint::named(
            names::BUILTIN_NAME_DARRAY,
            TypeConstraintFlags::no_flags(),
        ),
        Hint::Tuple(_) => Constraint::named(
            names::BUILTIN_NAME_VARRAY,
            TypeConstraintFlags::no_flags(),
        ),
        Hint::Soft(inner) => make_tc_with_flags_if_non_empty_flags(
            kind,
            tparams,
            skipawaitable,
            inner,
            TypeConstraintFlags::soft(),
        ),
        Hint::Like(inner) => hint_to_type_constraint(kind, tparams, skipawaitable, inner),
        Hint::Nullable(inner) => {
            match &**inner {
                Hint::Apply(name, args) => {
                    if skipawaitable && is_awaitable(name.name.as_str()) {
                        if args.len() == 0 {
                            return Constraint::default();
                        }
                        if args.len() == 1 {
                            return hint_to_type_constraint(kind, tparams, false, &args[0]);
                        }
                    }
                },
                Hint::Soft(softened) => {
                    match &**softened {
                        Hint::Apply(name, args) => {
                            if skipawaitable && is_awaitable(name.name.as_str()) && args.len()
                                == 1 {
                                return make_tc_with_flags_if_non_empty_flags(
                                    kind,
                                    tparams,
                                    false,
                                    &args[0],
                                    TypeConstraintFlags::soft(),
                                );
                            }
                        },
                        _ => {},
                    }
                },
                _ => {},
            }
            make_tc_with_flags_if_non_empty_flags(
                kind,
                tparams,
                skipawaitable,
                inner,
                TypeConstraintFlags::nullable().union(TypeConstraintFlags::display_nullable()),
            )
        },
        Hint::Apply(name, args) => {
            let s = name.name.as_str();
            if args.len() == 0 {
                if str_eq(s, names::HH_DYNAMIC) || str_eq(s, names::HH_MIXED) || (skipawaitable
                    && is_awaitable(s)) || (eq_ignore_ascii_case(s, names::HH_VOID)
                    && !is_typedef(kind)) {
                    return Constraint::default();
                }
            } else if args.len() == 1 {
                if skipawaitable && is_awaitable(s) {
                    if is_void_hint(&args[0]) {
                        return Constraint::default();
                    }
                    return hint_to_type_constraint(kind, tparams, false, &args[0]);
                }
                if str_eq(s, names::POISON_MARKER) || str_eq(s, names::HH_FUNCTIONREF) {
                    return hint_to_type_constraint(kind, tparams, false, &args[0]);
                }
            }
            type_application_helper(tparams, kind, s, name.mangled.as_str())
        },
        Hint::ClassPtr(_, _) => Constraint::named(
            names::BUILTIN_NAME_CLASS,
            TypeConstraintFlags::no_flags(),
        ),
        Hint::Abstr(name) => type_application_helper(
            tparams,
            kind,
            name.name.as_str(),
            name.mangled.as_str(),
        ),
        Hint::Refinement(inner) => hint_to_type_constraint(kind, tparams, skipawaitable, inner),
        Hint::FunContext(_)
        | Hint::Nonnull
        | Hint::Nothing
        | Hint::Prim(_)
        | Hint::This
        | Hint::Var(_)
        | Hint::VecOrDict(_, _) => {
            match hint_to_string(h) {
                Some(keyword) => type_application_helper(tparams, kind, keyword, keyword),
                None => unreached(),
            }
        },
    }
}

} // verus!
