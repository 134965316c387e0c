//! What holds of the lowering for every hint: how wrappers compose, how
//! unwrapping behaves, and what the two passes agree on.

use vstd::prelude::*;
use crate::constraint::constraint_of;
use crate::constraint::is_awaitable_name;
use crate::constraint::is_unenforced_name;
use crate::constraint::is_void;
use crate::constraint::named;
use crate::constraint::type_application;
use crate::constraint::unconstrained;
use crate::constraint::with_flags_if_non_empty;
use crate::constraint::ConstraintView;
use crate::display::display;
use crate::display::all_fields_well_formed;
use crate::display::all_well_formed;
use crate::display::well_formed;
use crate::flags::lemma_union_associative;
use crate::flags::lemma_union_commutative;
use crate::flags::lemma_union_idempotent;
use crate::flags::lemma_union_identity;
use crate::flags::lemma_union_is_empty;
use crate::flags::nullable_pair;
use crate::flags::TypeConstraintFlags;
use crate::hint::Hint;
use crate::hint::Kind;
use crate::hint::ShapeField;
use crate::names;
use crate::native::flags_of_form;
use crate::nullability::admits_nullable;
use crate::nullability::with_nullable;
use crate::type_info::alternatives;
use crate::type_info::is_simple;
use crate::type_info::type_info_of;
use crate::type_info::type_infos_of_each;

verus! {

/// Adding flags to a constraint in either order gives the same constraint:
/// the result does not depend on the path by which the flags were put
/// together.
pub proof fn lemma_flags_commute(
    tc: ConstraintView,
    a: TypeConstraintFlags,
    b: TypeConstraintFlags,
)
    ensures
        with_flags_if_non_empty(with_flags_if_non_empty(tc, a), b) == with_flags_if_non_empty(
            with_flags_if_non_empty(tc, b),
            a,
        ),
{
    lemma_union_is_empty(a, tc.flags);
    lemma_union_is_empty(b, tc.flags);
    lemma_union_associative(b, a, tc.flags);
    lemma_union_associative(a, b, tc.flags);
    lemma_union_commutative(a, b);
}

/// Whether a hint is the soft asynchronous result that a nullable wrapper
/// unwraps: a soft wrapper round the class of an asynchronous result with
/// one argument.
pub open spec fn is_soft_awaitable(h: Hint) -> bool {
    h matches Hint::Soft(inner) && (*inner matches Hint::Apply(name, args) && is_awaitable_name(
        name.name@,
    ) && args@.len() == 1)
}

/// A soft wrapper round a nullable hint and a nullable wrapper round a soft
/// hint enforce the same: the order of the two wrappers does not reach the
/// constraint. The one exception is a soft asynchronous result under the two
/// wrappers while unwrapping is asked for.
pub proof fn lemma_soft_and_nullable_commute(
    kind: Kind,
    tparams: Seq<Seq<char>>,
    unwrap: bool,
    h: Hint,
)
    requires
        !(unwrap && is_soft_awaitable(h)),
    ensures
        constraint_of(kind, tparams, unwrap, Hint::Soft(Box::new(Hint::Nullable(Box::new(h)))))
            == constraint_of(
            kind,
            tparams,
            unwrap,
            Hint::Nullable(Box::new(Hint::Soft(Box::new(h)))),
        ),
{
    let tc = constraint_of(kind, tparams, unwrap, h);
    let nullable = Hint::Nullable(Box::new(h));
    let soft = Hint::Soft(Box::new(h));
    let soft_nullable = constraint_of(kind, tparams, unwrap, Hint::Soft(Box::new(nullable)));
    let nullable_soft = constraint_of(kind, tparams, unwrap, Hint::Nullable(Box::new(soft)));
    assert(soft_nullable == with_flags_if_non_empty(
        constraint_of(kind, tparams, unwrap, nullable),
        TypeConstraintFlags::soft(),
    ));
    assert(constraint_of(kind, tparams, unwrap, soft) == with_flags_if_non_empty(
        tc,
        TypeConstraintFlags::soft(),
    ));
    let unwrapped = unwrap && (h matches Hint::Apply(name, args) && is_awaitable_name(name.name@)
        && args@.len() <= 1);
    if unwrapped {
        let args = h->Apply_1@;
        if args.len() == 0 {
            assert(tc == unconstrained());
            assert(constraint_of(kind, tparams, unwrap, nullable) == unconstrained());
            assert(nullable_soft == with_flags_if_non_empty(
                constraint_of(kind, tparams, unwrap, soft),
                nullable_pair(),
            ));
        } else {
            let awaited = constraint_of(kind, tparams, false, args[0]);
            assert(constraint_of(kind, tparams, unwrap, nullable) == awaited);
            assert(nullable_soft == with_flags_if_non_empty(awaited, TypeConstraintFlags::soft()));
        }
    } else {
        assert(constraint_of(kind, tparams, unwrap, nullable) == with_flags_if_non_empty(
            tc,
            nullable_pair(),
        ));
        assert(nullable_soft == with_flags_if_non_empty(
            constraint_of(kind, tparams, unwrap, soft),
            nullable_pair(),
        ));
        lemma_flags_commute(tc, nullable_pair(), TypeConstraintFlags::soft());
    }
}

/// A soft wrapper round a hint that enforces nothing enforces nothing: the
/// soft flag does not stand alone.
pub proof fn lemma_soft_on_empty_is_empty(
    kind: Kind,
    tparams: Seq<Seq<char>>,
    unwrap: bool,
    h: Hint,
)
    requires
        constraint_of(kind, tparams, unwrap, h).is_empty(),
    ensures
        constraint_of(kind, tparams, unwrap, Hint::Soft(Box::new(h))) == unconstrained(),
{
}

/// A soft wrapper round a hint that enforces something keeps the target
/// and adds the soft flag.
pub proof fn lemma_soft_on_non_empty_adds_soft(
    kind: Kind,
    tparams: Seq<Seq<char>>,
    unwrap: bool,
    h: Hint,
)
    requires
        !constraint_of(kind, tparams, unwrap, h).is_empty(),
    ensures
        ({
            let inner = constraint_of(kind, tparams, unwrap, h);
            let outer = constraint_of(kind, tparams, unwrap, Hint::Soft(Box::new(h)));
            outer.name == inner.name && outer.flags == TypeConstraintFlags::soft().union(
                inner.flags,
            )
        }),
{
}

/// Unwrapping strips one layer: an asynchronous result of `h` is enforced
/// as `h` is without unwrapping, unless `h` is `void`, which is not
/// enforced at all.
pub proof fn lemma_unwrap_strips_one_layer(
    kind: Kind,
    tparams: Seq<Seq<char>>,
    awaitable: Hint,
)
    requires
        awaitable matches Hint::Apply(name, args) && is_awaitable_name(name.name@) && args@.len()
            == 1,
    ensures
        constraint_of(kind, tparams, true, awaitable) == if is_void(awaitable->Apply_1@[0]) {
            unconstrained()
        } else {
            constraint_of(kind, tparams, false, awaitable->Apply_1@[0])
        },
{
}

/// Unwrapping does not compound: of two nested asynchronous results the
/// inner one is enforced as the class that it is.
pub proof fn lemma_unwrap_does_not_compound(
    kind: Kind,
    tparams: Seq<Seq<char>>,
    outer: Hint,
)
    requires
        outer matches Hint::Apply(name, args) && is_awaitable_name(name.name@) && args@.len() == 1
            && (args@[0] matches Hint::Apply(inner_name, inner_args) && is_awaitable_name(
            inner_name.name@,
        ) && inner_args@.len() == 1),
    ensures
        ({
            let inner = outer->Apply_1@[0];
            constraint_of(kind, tparams, true, outer) == type_application(
                tparams,
                kind,
                inner->Apply_0.name@,
                inner->Apply_0.mangled@,
            )
        }),
{
    reveal_with_fuel(constraint_of, 2);
    lemma_awaitable_is_no_marker();
    let inner = outer->Apply_1@[0];
    assert(!is_void(inner));
}

/// The class of an asynchronous result is neither of the two transparent
/// markers.
pub proof fn lemma_awaitable_is_no_marker()
    ensures
        names::AWAITABLE@ != names::POISON_MARKER@,
        names::AWAITABLE@ != names::HH_FUNCTIONREF@,
{
    reveal_strlit("\\HH\\Awaitable");
    reveal_strlit("\\HH\\FIXME\\POISON_MARKER");
    reveal_strlit("\\HH\\FunctionRef");
    assert(names::AWAITABLE@.len() == 13);
    assert(names::POISON_MARKER@.len() == 23);
    assert(names::HH_FUNCTIONREF@.len() == 15);
}

/// A nullable soft hint is shown with the soft mark first: as `@?` and the
/// hint.
pub proof fn lemma_nullable_soft_display(tparams: Seq<Seq<char>>, strip: bool, h: Hint)
    ensures
        display(tparams, strip, Hint::Nullable(Box::new(Hint::Soft(Box::new(h))))) == "@?"@
            + display(tparams, false, h),
{
}

/// A soft nullable hint is shown like the nullable soft hint, with the soft
/// mark first, unless the hint under the two wrappers is soft itself.
pub proof fn lemma_soft_nullable_display(tparams: Seq<Seq<char>>, strip: bool, h: Hint)
    requires
        !(h is Soft),
    ensures
        display(tparams, strip, Hint::Soft(Box::new(Hint::Nullable(Box::new(h))))) == display(
            tparams,
            strip,
            Hint::Nullable(Box::new(Hint::Soft(Box::new(h)))),
        ),
{
    reveal_with_fuel(display, 2);
    reveal_strlit("@?");
    reveal_strlit("@");
    reveal_strlit("?");
    let shown = display(tparams, false, h);
    assert("@"@ + ("?"@ + shown) =~= "@?"@ + shown);
}

/// A generic parameter is a type variable: it keeps its name as the target
/// for a parameter, a return type and a property, and has the empty name as
/// the target for every other kind.
pub proof fn lemma_generic_parameter_is_type_var(
    kind: Kind,
    tparams: Seq<Seq<char>>,
    unwrap: bool,
    h: Hint,
)
    requires
        h matches Hint::Apply(name, args) && args@.len() == 0 && tparams.contains(name.name@)
            && !is_unenforced_name(kind, unwrap, name.name@),
    ensures
        constraint_of(kind, tparams, unwrap, h) == named(
            if kind is Param || kind is Return || kind is Property {
                h->Apply_0.name@
            } else {
                Seq::empty()
            },
            TypeConstraintFlags::type_var(),
        ),
{
}

/// A named type that is no generic parameter is a class: the target is its
/// canonical form, and no flag is set.
pub proof fn lemma_class_name_is_target(
    kind: Kind,
    tparams: Seq<Seq<char>>,
    unwrap: bool,
    h: Hint,
)
    requires
        h matches Hint::Apply(name, args) && args@.len() == 0 && !tparams.contains(name.name@)
            && !is_unenforced_name(kind, unwrap, name.name@),
    ensures
        constraint_of(kind, tparams, unwrap, h) == named(
            h->Apply_0.mangled@,
            TypeConstraintFlags::no_flags(),
        ),
{
}

/// The simple hint of a parameter carries none of the flags that
/// resolution gave it: only the nullability of the declaration, where the
/// hint takes it.
pub proof fn lemma_simple_param_flags(
    unwrap: bool,
    nullable: bool,
    tparams: Seq<Seq<char>>,
    h: Hint,
)
    requires
        is_simple(tparams, h),
    ensures
        type_info_of(Kind::Param, unwrap, nullable, tparams, h).type_constraint.flags
            == with_nullable(nullable && admits_nullable(h), TypeConstraintFlags::no_flags()),
{
}

/// The bare name of a class as the hint of a parameter has no flags where
/// the declaration is not nullable, and exactly the nullable pair where it
/// is.
pub proof fn lemma_bare_class_param_flags(
    unwrap: bool,
    nullable: bool,
    tparams: Seq<Seq<char>>,
    h: Hint,
)
    requires
        h is Apply,
        is_simple(tparams, h),
    ensures
        type_info_of(Kind::Param, unwrap, nullable, tparams, h).type_constraint.flags
            == if nullable {
            nullable_pair()
        } else {
            TypeConstraintFlags::no_flags()
        },
{
    lemma_union_identity(nullable_pair());
}

/// A type constant is well formed exactly when it is read from a named
/// type: read from anything else it fails the formatter, and is never shown
/// as anything.
pub proof fn lemma_type_constant_needs_named_type(strip: bool, h: Hint)
    requires
        h is Access,
    ensures
        well_formed(strip, h) <==> *h->Access_0 is Apply,
{
}

/// A wrapper is well formed exactly when the hint under it is: the error
/// of a type constant reaches the caller through every nullable, soft, like
/// and refinement wrapper.
pub proof fn lemma_wrappers_keep_well_formedness(strip: bool, h: Hint)
    ensures
        well_formed(strip, Hint::Nullable(Box::new(h))) <==> well_formed(false, h),
        well_formed(strip, Hint::Soft(Box::new(h))) <==> well_formed(false, h),
        well_formed(strip, Hint::Like(Box::new(h))) <==> well_formed(false, h),
        well_formed(strip, Hint::Refinement(Box::new(h))) <==> well_formed(strip, h),
{
}

/// A refinement is not seen: the hint with it is shown, fails and is
/// resolved as the refined hint is.
pub proof fn lemma_refinement_is_transparent(
    kind: Kind,
    tparams: Seq<Seq<char>>,
    strip: bool,
    unwrap: bool,
    h: Hint,
)
    ensures
        display(tparams, strip, Hint::Refinement(Box::new(h))) == display(tparams, strip, h),
        well_formed(strip, Hint::Refinement(Box::new(h))) <==> well_formed(strip, h),
        constraint_of(kind, tparams, unwrap, Hint::Refinement(Box::new(h))) == constraint_of(
            kind,
            tparams,
            unwrap,
            h,
        ),
{
}

/// Whether a type constant stands anywhere in a hint.
pub open spec fn holds_type_constant(h: Hint) -> bool
    decreases h,
{
    match h {
        Hint::Access(_, _) => true,
        Hint::Apply(_, args) => any_holds_type_constant(args@),
        Hint::Nullable(inner) => holds_type_constant(*inner),
        Hint::Like(inner) => holds_type_constant(*inner),
        Hint::Fun(params, ret) => any_holds_type_constant(params@) || holds_type_constant(*ret),
        Hint::Tuple(required) => any_holds_type_constant(required@),
        Hint::ClassPtr(_, inner) => holds_type_constant(*inner),
        Hint::Shape(fields) => any_field_holds_type_constant(fields@),
        Hint::Soft(inner) => holds_type_constant(*inner),
        Hint::Refinement(inner) => holds_type_constant(*inner),
        Hint::VecOrDict(key, value) => (match key {
            Some(key) => holds_type_constant(*key),
            None => false,
        }) || holds_type_constant(*value),
        Hint::Union(members) => any_holds_type_constant(members@),
        Hint::Intersection(members) => any_holds_type_constant(members@),
        Hint::Prim(_)
        | Hint::Mixed
        | Hint::Wildcard
        | Hint::Nonnull
        | Hint::Abstr(_)
        | Hint::This
        | Hint::Dynamic
        | Hint::Nothing
        | Hint::FunContext(_)
        | Hint::Var(_) => false,
    }
}

/// Whether a type constant stands anywhere in a hint of the list.
pub open spec fn any_holds_type_constant(hints: Seq<Hint>) -> bool
    decreases hints,
{
    exists|i: int| 0 <= i < hints.len() && holds_type_constant(#[trigger] hints[i])
}

/// Whether a type constant stands anywhere in the hint of a field.
pub open spec fn any_field_holds_type_constant(fields: Seq<ShapeField>) -> bool
    decreases fields,
{
    exists|i: int| 0 <= i < fields.len() && holds_type_constant((#[trigger] fields[i]).hint)
}

/// A hint without a type constant is well formed, whatever its forms: the
/// malformed type constant is the only failure of the formatter.
pub proof fn lemma_without_type_constant_is_well_formed(strip: bool, h: Hint)
    requires
        !holds_type_constant(h),
    ensures
        well_formed(strip, h),
    decreases h,
{
    match h {
        Hint::Apply(_, args) => lemma_list_without_type_constant(args@),
        Hint::Nullable(inner) => lemma_without_type_constant_is_well_formed(false, *inner),
        Hint::Like(inner) => lemma_without_type_constant_is_well_formed(false, *inner),
        Hint::Fun(params, ret) => {
            lemma_list_without_type_constant(params@);
            lemma_without_type_constant_is_well_formed(false, *ret);
        },
        Hint::Tuple(required) => lemma_list_without_type_constant(required@),
        Hint::ClassPtr(_, inner) => lemma_without_type_constant_is_well_formed(false, *inner),
        Hint::Shape(fields) => lemma_fields_without_type_constant(fields@),
        Hint::Soft(inner) => lemma_without_type_constant_is_well_formed(false, *inner),
        Hint::Refinement(inner) => lemma_without_type_constant_is_well_formed(strip, *inner),
        _ => {},
    }
}

/// A list of hints without a type constant is well formed.
pub proof fn lemma_list_without_type_constant(hints: Seq<Hint>)
    requires
        !any_holds_type_constant(hints),
    ensures
        all_well_formed(hints),
    decreases hints,
{
    assert forall|i: int| 0 <= i < hints.len() implies well_formed(false, #[trigger] hints[i]) by {
        lemma_without_type_constant_is_well_formed(false, hints[i]);
    }
}

/// The fields of a shape without a type constant are well formed.
pub proof fn lemma_fields_without_type_constant(fields: Seq<ShapeField>)
    requires
        !any_field_holds_type_constant(fields),
    ensures
        all_fields_well_formed(fields),
    decreases fields,
{
    assert forall|i: int| 0 <= i < fields.len() implies well_formed(
        false,
        (#[trigger] fields[i]).hint,
    ) by {
        lemma_without_type_constant_is_well_formed(false, fields[i].hint);
    }
}

/// A second soft wrapper changes nothing: the soft flag is added once.
pub proof fn lemma_soft_is_idempotent(
    kind: Kind,
    tparams: Seq<Seq<char>>,
    unwrap: bool,
    h: Hint,
)
    ensures
        constraint_of(kind, tparams, unwrap, Hint::Soft(Box::new(Hint::Soft(Box::new(h)))))
            == constraint_of(kind, tparams, unwrap, Hint::Soft(Box::new(h))),
{
    let tc = constraint_of(kind, tparams, unwrap, h);
    let once = constraint_of(kind, tparams, unwrap, Hint::Soft(Box::new(h)));
    assert(once == with_flags_if_non_empty(tc, TypeConstraintFlags::soft()));
    assert(constraint_of(kind, tparams, unwrap, Hint::Soft(Box::new(Hint::Soft(Box::new(h)))))
        == with_flags_if_non_empty(once, TypeConstraintFlags::soft()));
    lemma_union_is_empty(TypeConstraintFlags::soft(), tc.flags);
    lemma_union_associative(TypeConstraintFlags::soft(), TypeConstraintFlags::soft(), tc.flags);
    lemma_union_idempotent(TypeConstraintFlags::soft(), TypeConstraintFlags::soft());
}

/// Adding flags never changes the target, and changes nothing at all
/// where there is neither target nor flag.
pub proof fn lemma_flags_keep_the_target(tc: ConstraintView, flags: TypeConstraintFlags)
    ensures
        with_flags_if_non_empty(tc, flags).name == tc.name,
        tc.is_empty() ==> with_flags_if_non_empty(tc, flags) == tc,
        !tc.is_empty() ==> with_flags_if_non_empty(tc, flags).flags == flags.union(tc.flags),
{
}

/// A constraint without a target has no flags: what enforces nothing by
/// name enforces nothing.
pub proof fn lemma_no_target_no_flags(
    kind: Kind,
    tparams: Seq<Seq<char>>,
    unwrap: bool,
    h: Hint,
)
    ensures
        constraint_of(kind, tparams, unwrap, h).name is None ==> constraint_of(
            kind,
            tparams,
            unwrap,
            h,
        ) == unconstrained(),
    decreases h,
{
    match h {
        Hint::Soft(inner) => lemma_no_target_no_flags(kind, tparams, unwrap, *inner),
        Hint::Like(inner) => lemma_no_target_no_flags(kind, tparams, unwrap, *inner),
        Hint::Refinement(inner) => lemma_no_target_no_flags(kind, tparams, unwrap, *inner),
        Hint::Nullable(inner) => {
            lemma_no_target_no_flags(kind, tparams, unwrap, *inner);
            match *inner {
                Hint::Apply(_, args) => {
                    if args@.len() == 1 {
                        lemma_no_target_no_flags(kind, tparams, false, args@[0]);
                    }
                },
                Hint::Soft(softened) => match *softened {
                    Hint::Apply(_, args) => {
                        if args@.len() == 1 {
                            lemma_no_target_no_flags(kind, tparams, false, args@[0]);
                        }
                    },
                    _ => {},
                },
                _ => {},
            }
        },
        Hint::Apply(_, args) => {
            if args@.len() == 1 {
                lemma_no_target_no_flags(kind, tparams, false, args@[0]);
            }
        },
        _ => {},
    }
}

/// The union of two sets without the upper-bound flag is without it.
pub proof fn lemma_union_without_upper_bound(a: TypeConstraintFlags, b: TypeConstraintFlags)
    requires
        !a.contains(TypeConstraintFlags::upper_bound()),
        !b.contains(TypeConstraintFlags::upper_bound()),
    ensures
        !a.union(b).contains(TypeConstraintFlags::upper_bound()),
{
    let x = a.bits;
    let y = b.bits;
    assert(x & 0x200u16 != 0x200u16 && y & 0x200u16 != 0x200u16 ==> (x | y) & 0x200u16
        != 0x200u16) by (bit_vector);
}

/// No member but the upper-bound flag itself holds the upper-bound flag,
/// and any union with it holds it.
pub proof fn lemma_members_without_upper_bound(a: TypeConstraintFlags)
    ensures
        !TypeConstraintFlags::no_flags().contains(TypeConstraintFlags::upper_bound()),
        !TypeConstraintFlags::soft().contains(TypeConstraintFlags::upper_bound()),
        !TypeConstraintFlags::type_var().contains(TypeConstraintFlags::upper_bound()),
        !TypeConstraintFlags::type_constant().contains(TypeConstraintFlags::upper_bound()),
        !nullable_pair().contains(TypeConstraintFlags::upper_bound()),
        TypeConstraintFlags::upper_bound().union(a).contains(TypeConstraintFlags::upper_bound()),
        a.contains(TypeConstraintFlags::upper_bound()) ==> nullable_pair().union(a).contains(
            TypeConstraintFlags::upper_bound(),
        ),
{
    let x = a.bits;
    assert(0u16 & 0x200u16 != 0x200u16 && 0x10u16 & 0x200u16 != 0x200u16 && 0x8u16 & 0x200u16
        != 0x200u16 && 0x20u16 & 0x200u16 != 0x200u16 && (0x1u16 | 0x100u16) & 0x200u16
        != 0x200u16) by (bit_vector);
    assert((0x200u16 | x) & 0x200u16 == 0x200u16) by (bit_vector);
    assert(x & 0x200u16 == 0x200u16 ==> ((0x1u16 | 0x100u16) | x) & 0x200u16 == 0x200u16)
        by (bit_vector);
}

/// The resolver never sets the upper-bound flag.
pub proof fn lemma_resolver_never_sets_upper_bound(
    kind: Kind,
    tparams: Seq<Seq<char>>,
    unwrap: bool,
    h: Hint,
)
    ensures
        !constraint_of(kind, tparams, unwrap, h).flags.contains(
            TypeConstraintFlags::upper_bound(),
        ),
    decreases h,
{
    lemma_members_without_upper_bound(TypeConstraintFlags::no_flags());
    match h {
        Hint::Soft(inner) => {
            lemma_resolver_never_sets_upper_bound(kind, tparams, unwrap, *inner);
            lemma_union_without_upper_bound(
                TypeConstraintFlags::soft(),
                constraint_of(kind, tparams, unwrap, *inner).flags,
            );
        },
        Hint::Like(inner) => lemma_resolver_never_sets_upper_bound(kind, tparams, unwrap, *inner),
        Hint::Refinement(inner) => lemma_resolver_never_sets_upper_bound(
            kind,
            tparams,
            unwrap,
            *inner,
        ),
        Hint::Nullable(inner) => {
            lemma_resolver_never_sets_upper_bound(kind, tparams, unwrap, *inner);
            lemma_union_without_upper_bound(
                nullable_pair(),
                constraint_of(kind, tparams, unwrap, *inner).flags,
            );
            match *inner {
                Hint::Apply(_, args) => {
                    if args@.len() == 1 {
                        lemma_resolver_never_sets_upper_bound(kind, tparams, false, args@[0]);
                    }
                },
                Hint::Soft(softened) => match *softened {
                    Hint::Apply(_, args) => {
                        if args@.len() == 1 {
                            lemma_resolver_never_sets_upper_bound(
                                kind,
                                tparams,
                                false,
                                args@[0],
                            );
                            lemma_union_without_upper_bound(
                                TypeConstraintFlags::soft(),
                                constraint_of(kind, tparams, false, args@[0]).flags,
                            );
                        }
                    },
                    _ => {},
                },
                _ => {},
            }
        },
        Hint::Apply(_, args) => {
            if args@.len() == 1 {
                lemma_resolver_never_sets_upper_bound(kind, tparams, false, args@[0]);
            }
        },
        _ => {},
    }
}

/// A record has the upper-bound flag exactly for the kind `UpperBound`.
pub proof fn lemma_record_upper_bound(
    kind: Kind,
    unwrap: bool,
    nullable: bool,
    tparams: Seq<Seq<char>>,
    h: Hint,
)
    ensures
        type_info_of(kind, unwrap, nullable, tparams, h).type_constraint.flags.contains(
            TypeConstraintFlags::upper_bound(),
        ) <==> kind is UpperBound,
{
    let resolved = constraint_of(kind, tparams, unwrap, h).flags;
    let bounded = TypeConstraintFlags::upper_bound().union(resolved);
    lemma_resolver_never_sets_upper_bound(kind, tparams, unwrap, h);
    lemma_members_without_upper_bound(resolved);
    lemma_members_without_upper_bound(bounded);
    lemma_union_without_upper_bound(nullable_pair(), resolved);
    lemma_union_without_upper_bound(nullable_pair(), TypeConstraintFlags::no_flags());
}

/// A hint that is no union has itself as its one alternative, so its
/// records are the one record of the hint.
pub proof fn lemma_alternatives_of_no_union(
    kind: Kind,
    unwrap: bool,
    nullable: bool,
    tparams: Seq<Seq<char>>,
    h: Hint,
)
    requires
        !(h is Union),
    ensures
        alternatives(h) == seq![h],
        all_well_formed(alternatives(h)) <==> well_formed(false, h),
        type_infos_of_each(kind, unwrap, nullable, tparams, alternatives(h)) == seq![
            type_info_of(kind, unwrap, nullable, tparams, h),
        ],
{
    assert(alternatives(h)[0] == h);
    assert(type_infos_of_each(kind, unwrap, nullable, tparams, alternatives(h)) =~= seq![
        type_info_of(kind, unwrap, nullable, tparams, h),
    ]);
}

/// A record always holds the string shown for its hint.
pub proof fn lemma_display_string_is_never_omitted(
    kind: Kind,
    unwrap: bool,
    nullable: bool,
    tparams: Seq<Seq<char>>,
    h: Hint,
)
    ensures
        type_info_of(kind, unwrap, nullable, tparams, h).user_type == Some(
            display(tparams, false, h),
        ),
{
}

/// A union, an intersection, `dynamic`, `mixed`, a function type and the
/// wildcard never have a target, nor a flag.
pub proof fn lemma_forms_without_target(
    kind: Kind,
    tparams: Seq<Seq<char>>,
    unwrap: bool,
    h: Hint,
)
    requires
        h is Union || h is Intersection || h is Dynamic || h is Mixed || h is Fun
            || h is Wildcard,
    ensures
        constraint_of(kind, tparams, unwrap, h) == unconstrained(),
{
}

/// Whether a flag set holds both members of the nullable pair or neither.
pub open spec fn nullable_is_paired(flags: TypeConstraintFlags) -> bool {
    flags.contains(TypeConstraintFlags::nullable()) <==> flags.contains(
        TypeConstraintFlags::display_nullable(),
    )
}

/// The union of two sets in which the nullable pair is whole holds the
/// pair whole.
pub proof fn lemma_union_keeps_pair(a: TypeConstraintFlags, b: TypeConstraintFlags)
    requires
        nullable_is_paired(a),
        nullable_is_paired(b),
    ensures
        nullable_is_paired(a.union(b)),
{
    let x = a.bits;
    let y = b.bits;
    assert(((x & 0x1u16 == 0x1u16) <==> (x & 0x100u16 == 0x100u16)) && ((y & 0x1u16 == 0x1u16)
        <==> (y & 0x100u16 == 0x100u16)) ==> (((x | y) & 0x1u16 == 0x1u16) <==> ((x | y)
        & 0x100u16 == 0x100u16))) by (bit_vector);
}

/// In each single member but the two of the pair, and in the pair itself,
/// the nullable pair is whole.
pub proof fn lemma_members_keep_pair()
    ensures
        nullable_is_paired(TypeConstraintFlags::no_flags()),
        nullable_is_paired(TypeConstraintFlags::soft()),
        nullable_is_paired(TypeConstraintFlags::type_var()),
        nullable_is_paired(TypeConstraintFlags::type_constant()),
        nullable_is_paired(TypeConstraintFlags::upper_bound()),
        nullable_is_paired(nullable_pair()),
{
    assert(0u16 & 0x1u16 != 0x1u16 && 0u16 & 0x100u16 != 0x100u16) by (bit_vector);
    assert(0x10u16 & 0x1u16 != 0x1u16 && 0x10u16 & 0x100u16 != 0x100u16) by (bit_vector);
    assert(0x8u16 & 0x1u16 != 0x1u16 && 0x8u16 & 0x100u16 != 0x100u16) by (bit_vector);
    assert(0x20u16 & 0x1u16 != 0x1u16 && 0x20u16 & 0x100u16 != 0x100u16) by (bit_vector);
    assert(0x200u16 & 0x1u16 != 0x1u16 && 0x200u16 & 0x100u16 != 0x100u16) by (bit_vector);
    assert((0x1u16 | 0x100u16) & 0x1u16 == 0x1u16 && (0x1u16 | 0x100u16) & 0x100u16 == 0x100u16)
        by (bit_vector);
}

/// The resolver sets the two members of the nullable pair together or not
/// at all.
pub proof fn lemma_resolved_nullable_is_paired(
    kind: Kind,
    tparams: Seq<Seq<char>>,
    unwrap: bool,
    h: Hint,
)
    ensures
        nullable_is_paired(constraint_of(kind, tparams, unwrap, h).flags),
    decreases h,
{
    lemma_members_keep_pair();
    match h {
        Hint::Soft(inner) => {
            lemma_resolved_nullable_is_paired(kind, tparams, unwrap, *inner);
            lemma_union_keeps_pair(
                TypeConstraintFlags::soft(),
                constraint_of(kind, tparams, unwrap, *inner).flags,
            );
        },
        Hint::Like(inner) => lemma_resolved_nullable_is_paired(kind, tparams, unwrap, *inner),
        Hint::Refinement(inner) => lemma_resolved_nullable_is_paired(
            kind,
            tparams,
            unwrap,
            *inner,
        ),
        Hint::Nullable(inner) => {
            lemma_resolved_nullable_is_paired(kind, tparams, unwrap, *inner);
            lemma_union_keeps_pair(
                nullable_pair(),
                constraint_of(kind, tparams, unwrap, *inner).flags,
            );
            match *inner {
                Hint::Apply(_, args) => {
                    if args@.len() == 1 {
                        lemma_resolved_nullable_is_paired(kind, tparams, false, args@[0]);
                    }
                },
                Hint::Soft(softened) => match *softened {
                    Hint::Apply(_, args) => {
                        if args@.len() == 1 {
                            lemma_resolved_nullable_is_paired(kind, tparams, false, args@[0]);
                            lemma_union_keeps_pair(
                                TypeConstraintFlags::soft(),
                                constraint_of(kind, tparams, false, args@[0]).flags,
                            );
                        }
                    },
                    _ => {},
                },
                _ => {},
            }
        },
        Hint::Apply(_, args) => {
            if args@.len() == 1 {
                lemma_resolved_nullable_is_paired(kind, tparams, false, args@[0]);
            }
        },
        _ => {},
    }
}

/// A record holds the two members of the nullable pair together or not at
/// all, whatever the kind and the nullability of the declaration.
pub proof fn lemma_record_nullable_is_paired(
    kind: Kind,
    unwrap: bool,
    nullable: bool,
    tparams: Seq<Seq<char>>,
    h: Hint,
)
    ensures
        nullable_is_paired(
            type_info_of(kind, unwrap, nullable, tparams, h).type_constraint.flags,
        ),
{
    lemma_members_keep_pair();
    lemma_resolved_nullable_is_paired(kind, tparams, unwrap, h);
    let resolved = constraint_of(kind, tparams, unwrap, h).flags;
    let bounded = TypeConstraintFlags::upper_bound().union(resolved);
    lemma_union_keeps_pair(TypeConstraintFlags::upper_bound(), resolved);
    lemma_union_keeps_pair(nullable_pair(), resolved);
    lemma_union_keeps_pair(nullable_pair(), bounded);
    lemma_union_keeps_pair(nullable_pair(), TypeConstraintFlags::no_flags());
}

/// The flags that the form of a hint gives hold the nullable pair whole
/// where the flags at the leaf do.
pub proof fn lemma_form_nullable_is_paired(
    tparams: Seq<Seq<char>>,
    flags: TypeConstraintFlags,
    h: Hint,
)
    requires
        nullable_is_paired(flags),
    ensures
        nullable_is_paired(flags_of_form(tparams, flags, h)),
    decreases h,
{
    lemma_members_keep_pair();
    match h {
        Hint::Nullable(inner) => {
            lemma_form_nullable_is_paired(tparams, flags, *inner);
            lemma_union_keeps_pair(nullable_pair(), flags_of_form(tparams, flags, *inner));
        },
        Hint::Soft(inner) => {
            lemma_form_nullable_is_paired(tparams, flags, *inner);
            lemma_union_keeps_pair(
                TypeConstraintFlags::soft(),
                flags_of_form(tparams, flags, *inner),
            );
        },
        Hint::Access(_, _) => {
            lemma_union_keeps_pair(TypeConstraintFlags::type_constant(), flags);
        },
        Hint::Apply(_, _) => {
            lemma_union_keeps_pair(TypeConstraintFlags::type_var(), flags);
        },
        _ => {},
    }
}

} // verus!
