//! The flag set of a type constraint: a small bit set whose members are
//! combined by union.

use vstd::prelude::*;

verus! {

/// The bit of the member that lets `null` pass.
pub const NULLABLE_BIT: u16 = 0x1;

/// The bit of the member that marks the name as a generic parameter.
pub const TYPE_VAR_BIT: u16 = 0x8;

/// The bit of the member that makes enforcement advisory.
pub const SOFT_BIT: u16 = 0x10;

/// The bit of the member that marks the name as a path to a type constant.
pub const TYPE_CONSTANT_BIT: u16 = 0x20;

/// The bit of the member that shows the question mark in the displayed form.
pub const DISPLAY_NULLABLE_BIT: u16 = 0x100;

/// The bit of the member that marks the bound of a generic parameter.
pub const UPPER_BOUND_BIT: u16 = 0x200;

/// A set of constraint flags. Two sets are equal exactly when their bits are.
#[derive(Clone, Copy, Debug, PartialEq, Eq, Structural)]
pub struct TypeConstraintFlags {
    pub bits: u16,
}

impl TypeConstraintFlags {
    pub open spec fn spec_no_flags() -> Self {
        TypeConstraintFlags { bits: 0 }
    }

    pub open spec fn spec_nullable() -> Self {
        TypeConstraintFlags { bits: NULLABLE_BIT }
    }

    pub open spec fn spec_type_var() -> Self {
        TypeConstraintFlags { bits: TYPE_VAR_BIT }
    }

    pub open spec fn spec_soft() -> Self {
        TypeConstraintFlags { bits: SOFT_BIT }
    }

    pub open spec fn spec_type_constant() -> Self {
        TypeConstraintFlags { bits: TYPE_CONSTANT_BIT }
    }

    pub open spec fn spec_display_nullable() -> Self {
        TypeConstraintFlags { bits: DISPLAY_NULLABLE_BIT }
    }

    pub open spec fn spec_upper_bound() -> Self {
        TypeConstraintFlags { bits: UPPER_BOUND_BIT }
    }

    /// The members of `self` together with those of `other`.
    pub open spec fn spec_union(self, other: Self) -> Self {
        TypeConstraintFlags { bits: self.bits | other.bits }
    }

    /// No member is set.
    pub open spec fn spec_is_empty(self) -> bool {
        self.bits == 0
    }

    /// Every member of `other` is a member of `self`.
    pub open spec fn spec_contains(self, other: Self) -> bool {
        self.bits & other.bits == other.bits
    }

    /// The empty set, the identity of `union`.
    #[verifier::when_used_as_spec(spec_no_flags)]
    pub fn no_flags() -> (r: Self)
        ensures
            r == Self::spec_no_flags(),
    {
        TypeConstraintFlags { bits: 0 }
    }

    /// `null` passes the constraint.
    #[verifier::when_used_as_spec(spec_nullable)]
    pub fn nullable() -> (r: Self)
        ensures
            r == Self::spec_nullable(),
    {
        TypeConstraintFlags { bits: NULLABLE_BIT }
    }

    /// The constraint's name is a generic parameter, not a class.
    #[verifier::when_used_as_spec(spec_type_var)]
    pub fn type_var() -> (r: Self)
        ensures
            r == Self::spec_type_var(),
    {
        TypeConstraintFlags { bits: TYPE_VAR_BIT }
    }

    /// A value that fails the constraint is reported, not rejected.
    #[verifier::when_used_as_spec(spec_soft)]
    pub fn soft() -> (r: Self)
        ensures
            r == Self::spec_soft(),
    {
        TypeConstraintFlags { bits: SOFT_BIT }
    }

    /// The constraint's name is a path to a type constant of a class.
    #[verifier::when_used_as_spec(spec_type_constant)]
    pub fn type_constant() -> (r: Self)
        ensures
            r == Self::spec_type_constant(),
    {
        TypeConstraintFlags { bits: TYPE_CONSTANT_BIT }
    }

    /// The displayed form carries the question mark. Set together with `nullable`.
    #[verifier::when_used_as_spec(spec_display_nullable)]
    pub fn display_nullable() -> (r: Self)
        ensures
            r == Self::spec_display_nullable(),
    {
        TypeConstraintFlags { bits: DISPLAY_NULLABLE_BIT }
    }

    /// The constraint is the upper bound of a generic parameter.
    #[verifier::when_used_as_spec(spec_upper_bound)]
    pub fn upper_bound() -> (r: Self)
        ensures
            r == Self::spec_upper_bound(),
    {
        TypeConstraintFlags { bits: UPPER_BOUND_BIT }
    }

    #[verifier::when_used_as_spec(spec_union)]
    pub fn union(self, other: Self) -> (r: Self)
        ensures
            r == self.spec_union(other),
    {
        TypeConstraintFlags { bits: self.bits | other.bits }
    }

    #[verifier::when_used_as_spec(spec_is_empty)]
    pub fn is_empty(self) -> (r: bool)
        ensures
            r == self.spec_is_empty(),
    {
        self.bits == 0
    }

    #[verifier::when_used_as_spec(spec_contains)]
    pub fn contains(self, other: Self) -> (r: bool)
        ensures
            r == self.spec_contains(other),
    {
        self.bits & other.bits == other.bits
    }
}

/// The two members that a nullable constraint carries.
pub open spec fn nullable_pair() -> TypeConstraintFlags {
    TypeConstraintFlags::nullable().union(TypeConstraintFlags::display_nullable())
}

/// Union does not depend on the order of its operands.
pub proof fn lemma_union_commutative(a: TypeConstraintFlags, b: TypeConstraintFlags)
    ensures
        a.union(b) == b.union(a),
{
    let x = a.bits;
    let y = b.bits;
    assert(x | y == y | x) by (bit_vector);
}

/// Union does not depend on how its operands are grouped.
pub proof fn lemma_union_associative(
    a: TypeConstraintFlags,
    b: TypeConstraintFlags,
    c: TypeConstraintFlags,
)
    ensures
        a.union(b).union(c) == a.union(b.union(c)),
{
    let x = a.bits;
    let y = b.bits;
    let z = c.bits;
    assert((x | y) | z == x | (y | z)) by (bit_vector);
}

/// Adding a set to itself, or adding the same set twice, changes nothing.
pub proof fn lemma_union_idempotent(a: TypeConstraintFlags, b: TypeConstraintFlags)
    ensures
        a.union(a) == a,
        a.union(b).union(b) == a.union(b),
{
    let x = a.bits;
    let y = b.bits;
    assert(x | x == x) by (bit_vector);
    assert((x | y) | y == x | y) by (bit_vector);
}

/// The empty set is the identity of union.
pub proof fn lemma_union_identity(a: TypeConstraintFlags)
    ensures
        a.union(TypeConstraintFlags::no_flags()) == a,
        TypeConstraintFlags::no_flags().union(a) == a,
{
    let x = a.bits;
    assert(x | 0u16 == x) by (bit_vector);
    assert(0u16 | x == x) by (bit_vector);
}

/// A union is empty only when both operands are.
pub proof fn lemma_union_is_empty(a: TypeConstraintFlags, b: TypeConstraintFlags)
    ensures
        a.union(b).is_empty() <==> a.is_empty() && b.is_empty(),
{
    let x = a.bits;
    let y = b.bits;
    assert((x | y == 0u16) <==> (x == 0u16 && y == 0u16)) by (bit_vector);
}

} // verus!
