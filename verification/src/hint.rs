//! The hint tree: a type annotation as the front end hands it over, with
//! every class name already resolved.

use vstd::prelude::*;

verus! {

/// Where a hint is used. The kind decides whether a generic parameter keeps
/// its name as a constraint target, whether `void` is enforced, and how the
/// nullability of the declaration is applied.
#[derive(Clone, Copy, Debug, PartialEq, Eq, Structural)]
pub enum Kind {
    Property,
    Return,
    Param,
    TypeDef,
    UpperBound,
}

/// A primitive scalar type.
#[derive(Clone, Copy, Debug, PartialEq, Eq, Structural)]
pub enum Tprim {
    Tnull,
    Tvoid,
    Tint,
    Tbool,
    Tfloat,
    Tstring,
    Tresource,
    Tnum,
    Tarraykey,
    Tnoreturn,
}

/// What a class pointer points to.
#[derive(Clone, Copy, Debug, PartialEq, Eq, Structural)]
pub enum ClassPtrKind {
    CKclass,
    CKenum,
}

/// A class or type name together with the forms that the name mangler gave it.
///
/// The lowering never derives one form from another: it takes all of them as
/// the front end resolved them.
#[derive(Clone, Debug, PartialEq, Eq)]
pub struct Name {
    /// The namespace-qualified name as the source spells it. Generic
    /// parameters and the special names are recognised by this form.
    pub name: String,
    /// The canonical form by which the runtime knows the class.
    pub mangled: String,
    /// For a name recognised as an XHP element, the unmangled spelling that
    /// is shown for it; `None` for every other name.
    pub xhp: Option<String>,
}

/// The name of a shape field.
#[derive(Clone, Debug, PartialEq, Eq)]
pub enum ShapeFieldName {
    /// A string literal.
    LitStr(String),
    /// A class name used as a string.
    ClassName(Name),
    /// A constant of a class: the class, then the constant's name.
    ClassConst(Name, String),
}

/// One field of a shape.
#[derive(Debug, PartialEq, Eq)]
pub struct ShapeField {
    /// Whether the field may be absent.
    pub optional: bool,
    pub name: ShapeFieldName,
    pub hint: Hint,
}

/// A type annotation. The tree is finite: every walk over it ends.
#[derive(Debug, PartialEq, Eq)]
pub enum Hint {
    /// A primitive scalar.
    Prim(Tprim),
    /// A named type applied to zero or more type arguments.
    Apply(Name, Vec<Hint>),
    /// `?T`.
    Nullable(Box<Hint>),
    /// `~T`: the union of `T` with dynamic.
    Like(Box<Hint>),
    /// A function type: the parameter types, then the return type.
    Fun(Vec<Hint>, Box<Hint>),
    /// A tuple: its required components, in order.
    Tuple(Vec<Hint>),
    /// `class<T>` or `enum<T>`.
    ClassPtr(ClassPtrKind, Box<Hint>),
    /// A shape: its fields in the order of their declaration.
    Shape(Vec<ShapeField>),
    /// A type constant: the class expression, then the names of the
    /// constants from left to right.
    Access(Box<Hint>, Vec<String>),
    /// `@T`: a failed check warns and does not reject.
    Soft(Box<Hint>),
    /// A hint with a refinement. Only the refined hint counts.
    Refinement(Box<Hint>),
    Mixed,
    Wildcard,
    Nonnull,
    /// A bare reference to a type parameter.
    Abstr(Name),
    /// `vec_or_dict`, with an optional key type and a value type.
    VecOrDict(Option<Box<Hint>>, Box<Hint>),
    This,
    Dynamic,
    Nothing,
    Union(Vec<Hint>),
    Intersection(Vec<Hint>),
    /// The context of a function, by name.
    FunContext(String),
    /// A type variable of type inference, by name.
    Var(String),
}

impl Name {
    /// A name that the mangler leaves as it is written, and that is no XHP
    /// element: all its forms are `name`.
    pub fn plain(name: &str) -> (r: Name)
        ensures
            r.name@ == name@,
            r.mangled@ == name@,
            r.xhp is None,
    {
        Name { name: String::from_str(name), mangled: String::from_str(name), xhp: None }
    }

    /// The form shown where the name is no generic parameter: the unmangled
    /// spelling of an XHP element, the canonical form of any other name.
    pub open spec fn shown(self) -> Seq<char> {
        match self.xhp {
            Some(element) => element@,
            None => self.mangled@,
        }
    }
}

impl Kind {
    /// Whether a generic parameter keeps its name as the constraint target.
    pub open spec fn keeps_type_var_name(self) -> bool {
        self is Param || self is Return || self is Property
    }
}

/// Whether the kind is `TypeDef`.
pub fn is_typedef(kind: &Kind) -> (r: bool)
    ensures
        r == (*kind is TypeDef),
{
    matches!(kind, Kind::TypeDef)
}

} // verus!
