use hint_lowering::flags::TypeConstraintFlags;
use hint_lowering::flags::DISPLAY_NULLABLE_BIT;
use hint_lowering::flags::NULLABLE_BIT;
use hint_lowering::flags::SOFT_BIT;
use hint_lowering::flags::TYPE_CONSTANT_BIT;
use hint_lowering::flags::TYPE_VAR_BIT;
use hint_lowering::flags::UPPER_BOUND_BIT;

fn members_f() -> Vec<TypeConstraintFlags> {
    vec![
        TypeConstraintFlags::nullable(),
        TypeConstraintFlags::display_nullable(),
        TypeConstraintFlags::soft(),
        TypeConstraintFlags::type_var(),
        TypeConstraintFlags::type_constant(),
        TypeConstraintFlags::upper_bound(),
    ]
}

#[test]
fn members_have_their_bits() {
    assert_eq!(TypeConstraintFlags::no_flags().bits, 0);
    assert_eq!(TypeConstraintFlags::nullable().bits, NULLABLE_BIT);
    assert_eq!(TypeConstraintFlags::display_nullable().bits, DISPLAY_NULLABLE_BIT);
    assert_eq!(TypeConstraintFlags::soft().bits, SOFT_BIT);
    assert_eq!(TypeConstraintFlags::type_var().bits, TYPE_VAR_BIT);
    assert_eq!(TypeConstraintFlags::type_constant().bits, TYPE_CONSTANT_BIT);
    assert_eq!(TypeConstraintFlags::upper_bound().bits, UPPER_BOUND_BIT);
}

#[test]
fn members_are_single_bits_that_differ() {
    let members = members_f();
    for (i, a) in members.iter().enumerate() {
        assert_eq!(a.bits.count_ones(), 1);
        for (j, b) in members.iter().enumerate() {
            assert_eq!(i == j, a == b);
            assert_eq!(i == j, a.contains(*b));
        }
    }
}

#[test]
fn union_is_commutative_associative_and_idempotent() {
    let mut sets = members_f();
    sets.push(TypeConstraintFlags::no_flags());
    sets.push(TypeConstraintFlags { bits: 0x119 });
    for a in &sets {
        assert_eq!(a.union(*a), *a);
        assert_eq!(a.union(TypeConstraintFlags::no_flags()), *a);
        assert_eq!(TypeConstraintFlags::no_flags().union(*a), *a);
        for b in &sets {
            assert_eq!(a.union(*b), b.union(*a));
            assert_eq!(a.union(*b).union(*b), a.union(*b));
            assert!(a.union(*b).contains(*a));
            assert!(a.union(*b).contains(*b));
            for c in &sets {
                assert_eq!(a.union(*b).union(*c), a.union(b.union(*c)));
            }
        }
    }
}

#[test]
fn union_of_members() {
    let pair = TypeConstraintFlags::nullable().union(TypeConstraintFlags::display_nullable());
    assert_eq!(pair.bits, 0x101);
    assert_eq!(pair.union(TypeConstraintFlags::soft()).bits, 0x111);
    assert!(pair.contains(TypeConstraintFlags::nullable()));
    assert!(pair.contains(TypeConstraintFlags::display_nullable()));
    assert!(!pair.contains(TypeConstraintFlags::soft()));
    assert!(!TypeConstraintFlags::nullable().contains(pair));
    assert!(pair.contains(TypeConstraintFlags::no_flags()));
}

#[test]
fn only_the_empty_set_is_empty() {
    assert!(TypeConstraintFlags::no_flags().is_empty());
    for member in members_f() {
        assert!(!member.is_empty());
        assert!(!member.union(TypeConstraintFlags::no_flags()).is_empty());
    }
}
