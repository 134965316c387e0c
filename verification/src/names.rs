//! The names with a fixed meaning: keywords of the type language, the special
//! classes, and the names that the runtime gives its built-in types.
//!
//! A keyword holds neither a namespace nor the punctuation of an XHP
//! element, so it is its own canonical form: it is shown, and is a target,
//! as it is written here.

use vstd::prelude::*;

verus! {

pub const NULL: &'static str = "null";

pub const VOID: &'static str = "void";

pub const INT: &'static str = "int";

pub const BOOL: &'static str = "bool";

pub const FLOAT: &'static str = "float";

pub const STRING: &'static str = "string";

pub const RESOURCE: &'static str = "resource";

pub const NUM: &'static str = "num";

pub const ARRAYKEY: &'static str = "arraykey";

pub const NORETURN: &'static str = "noreturn";

pub const MIXED: &'static str = "mixed";

pub const NONNULL: &'static str = "nonnull";

pub const THIS: &'static str = "this";

pub const DYNAMIC: &'static str = "dynamic";

pub const NOTHING: &'static str = "nothing";

/// The name for `vec_or_dict`, whatever its key and value types. The type
/// language shows this form with its arguments; the name table knows it by
/// this one word, chosen here.
pub const VEC_OR_DICT: &'static str = "vec_or_dict";

/// The name for the context of a function, whatever the function. The type
/// language has no keyword for this form; the name table gives it this one,
/// chosen here.
pub const FUN_CONTEXT: &'static str = "ctx";

/// The name for a type variable of type inference, whatever the variable.
/// The type language has no keyword for this form; the name table gives it
/// this one, chosen here.
pub const TYPE_VARIABLE: &'static str = "var";

/// The class of an asynchronous result.
pub const AWAITABLE: &'static str = "\\HH\\Awaitable";

/// The marker that wraps a type whose checks were relaxed.
pub const POISON_MARKER: &'static str = "\\HH\\FIXME\\POISON_MARKER";

/// The marker that wraps the type of a function reference.
pub const HH_FUNCTIONREF: &'static str = "\\HH\\FunctionRef";

pub const HH_DYNAMIC: &'static str = "\\HH\\dynamic";

pub const HH_MIXED: &'static str = "\\HH\\mixed";

pub const HH_NONNULL: &'static str = "\\HH\\nonnull";

pub const HH_VOID: &'static str = "\\HH\\void";

/// The namespace of the built-in types.
pub const HH: &'static str = "HH";

/// The runtime's name for the dict-like representation of a shape.
pub const BUILTIN_NAME_DARRAY: &'static str = "HH\\darray";

/// The runtime's name for the array-like representation of a tuple.
pub const BUILTIN_NAME_VARRAY: &'static str = "HH\\varray";

/// The runtime's name for a class pointer.
pub const BUILTIN_NAME_CLASS: &'static str = "HH\\class";

/// The runtime's name for `void`.
pub const BUILTIN_NAME_VOID: &'static str = "HH\\void";

/// The runtime's name for `mixed`.
pub const BUILTIN_NAME_MIXED: &'static str = "HH\\mixed";

/// The displayed form of a callable.
pub const CALLABLE: &'static str = "callable";

/// What stands for the class of a hint that names none.
pub const TYPE_IS_NOT_CLASS: &'static str = "__type_is_not_class__";

} // verus!
