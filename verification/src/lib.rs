//! Lowering of type hints: from a type annotation to the string shown for it
//! and the constraint that the runtime enforces.
//!
//! Three passes walk the same tree. The formatter (`display`) gives the
//! string, the resolver (`constraint`) the target and the flags, and the
//! assembler (`type_info`) puts both into the record that the emitter takes.
//! Every pass is a function of its arguments alone.

pub mod constraint;
pub mod display;
pub mod error;
pub mod flags;
pub mod hint;
pub mod laws;
pub mod names;
pub mod native;
pub mod nullability;
pub mod text;
pub mod type_info;

pub use crate::constraint::Constraint;
pub use crate::display::fmt_hint;
pub use crate::display::prim_to_string;
pub use crate::error::LoweringError;
pub use crate::flags::TypeConstraintFlags;
pub use crate::hint::Hint;
pub use crate::hint::Kind;
pub use crate::hint::Name;
pub use crate::hint::Tprim;
pub use crate::native::emit_type_constraint_for_native_function;
pub use crate::type_info::hint_to_class;
pub use crate::type_info::hint_to_type_info;
pub use crate::type_info::hint_to_type_info_union;
pub use crate::type_info::TypeInfo;
