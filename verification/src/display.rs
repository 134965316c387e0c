//! The display formatter: the string that stands for a hint in reflection
//! and in diagnostics.

use vstd::prelude::*;
use crate::error::LoweringError;
use crate::hint::ClassPtrKind;
use crate::hint::Hint;
use crate::hint::Name;
use crate::hint::ShapeField;
use crate::hint::ShapeFieldName;
use crate::hint::Tprim;
use crate::names;
use crate::text::contains_name;
use crate::text::join;
use crate::text::join_strings;
use crate::text::lemma_join_take;
use crate::text::names_of;
use crate::text::prefix_namespace;
use crate::text::strings_of;

verus! {

/// The keyword of a primitive.
pub open spec fn prim_keyword(prim: Tprim) -> Seq<char> {
    match prim {
        Tprim::Tnull => names::NULL@,
        Tprim::Tvoid => names::VOID@,
        Tprim::Tint => names::INT@,
        Tprim::Tbool => names::BOOL@,
        Tprim::Tfloat => names::FLOAT@,
        Tprim::Tstring => names::STRING@,
        Tprim::Tresource => names::RESOURCE@,
        Tprim::Tnum => names::NUM@,
        Tprim::Tarraykey => names::ARRAYKEY@,
        Tprim::Tnoreturn => names::NORETURN@,
    }
}

/// The name table: the keyword of each form that is shown and constrained
/// by a keyword of its own, and `None` for the forms that have a rule of
/// their own. A union and an intersection are known as `mixed`.
pub open spec fn keyword_of(h: Hint) -> Option<Seq<char>> {
    match h {
        Hint::Prim(prim) => Some(prim_keyword(prim)),
        Hint::Mixed | Hint::Union(_) | Hint::Intersection(_) => Some(names::MIXED@),
        Hint::Nonnull => Some(names::NONNULL@),
        Hint::This => Some(names::THIS@),
        Hint::Dynamic => Some(names::DYNAMIC@),
        Hint::Nothing => Some(names::NOTHING@),
        Hint::VecOrDict(_, _) => Some(names::VEC_OR_DICT@),
        Hint::FunContext(_) => Some(names::FUN_CONTEXT@),
        Hint::Var(_) => Some(names::TYPE_VARIABLE@),
        Hint::Apply(_, _)
        | Hint::Nullable(_)
        | Hint::Like(_)
        | Hint::Fun(_, _)
        | Hint::Tuple(_)
        | Hint::ClassPtr(_, _)
        | Hint::Shape(_)
        | Hint::Access(_, _)
        | Hint::Soft(_)
        | Hint::Refinement(_)
        | Hint::Wildcard
        | Hint::Abstr(_) => None,
    }
}

/// The forms that are shown and constrained by a keyword of their own.
pub open spec fn has_keyword(h: Hint) -> bool {
    keyword_of(h) is Some
}

/// How a name is shown: a generic parameter as it is written, any other
/// name in the form that the mangler gave it.
pub open spec fn name_display(tparams: Seq<Seq<char>>, name: Name) -> Seq<char> {
    if tparams.contains(name.name@) {
        name.name@
    } else {
        name.shown()
    }
}

/// The word in front of a class pointer's angle brackets.
pub open spec fn class_ptr_keyword(kind: ClassPtrKind) -> Seq<char> {
    match kind {
        ClassPtrKind::CKclass => "class"@,
        ClassPtrKind::CKenum => "enum"@,
    }
}

/// Whether every type constant that the formatter looks at is read from a
/// named type. The formatter does not look at the type arguments of a
/// stripped application, at the members of a union or an intersection, nor
/// under a type constant.
pub open spec fn well_formed(strip: bool, h: Hint) -> bool
    decreases h,
{
    match h {
        Hint::Access(root, _) => *root is Apply,
        Hint::Apply(_, args) => strip || all_well_formed(args@),
        Hint::ClassPtr(_, inner) => well_formed(false, *inner),
        Hint::Fun(params, ret) => all_well_formed(params@) && well_formed(false, *ret),
        Hint::Nullable(inner) => well_formed(false, *inner),
        Hint::Refinement(inner) => well_formed(strip, *inner),
        Hint::Shape(fields) => all_fields_well_formed(fields@),
        Hint::Tuple(required) => all_well_formed(required@),
        Hint::Like(inner) => well_formed(false, *inner),
        Hint::Soft(inner) => well_formed(false, *inner),
        Hint::Prim(_)
        | Hint::Mixed
        | Hint::Wildcard
        | Hint::Nonnull
        | Hint::Abstr(_)
        | Hint::VecOrDict(_, _)
        | Hint::This
        | Hint::Dynamic
        | Hint::Nothing
        | Hint::Union(_)
        | Hint::Intersection(_)
        | Hint::FunContext(_)
        | Hint::Var(_) => true,
    }
}

/// Every hint of the list is well formed when it is read in full.
pub open spec fn all_well_formed(hints: Seq<Hint>) -> bool
    decreases hints,
{
    forall|i: int| 0 <= i < hints.len() ==> well_formed(false, #[trigger] hints[i])
}

/// The hint of every field is well formed when it is read in full.
pub open spec fn all_fields_well_formed(fields: Seq<ShapeField>) -> bool
    decreases fields,
{
    forall|i: int| 0 <= i < fields.len() ==> well_formed(false, (#[trigger] fields[i]).hint)
}

/// The string that stands for a hint. `tparams` are the generic parameters
/// in scope; with `strip` the type arguments of the outermost application
/// are left out. A form with a keyword is shown by its keyword. The result
/// means something only for a hint that is well formed.
pub open spec fn display(tparams: Seq<Seq<char>>, strip: bool, h: Hint) -> Seq<char>
    decreases h,
{
    match h {
        Hint::Abstr(name) => name_display(tparams, name),
        Hint::Apply(name, args) => if args@.len() == 0 || strip {
            name_display(tparams, name)
        } else {
            name_display(tparams, name) + "<"@ + display_list(tparams, args@) + ">"@
        },
        Hint::ClassPtr(kind, inner) => class_ptr_keyword(kind) + "<"@ + display(
            tparams,
            false,
            *inner,
        ) + ">"@,
        Hint::Wildcard => "_"@,
        Hint::Fun(params, ret) => "(function ("@ + display_list(tparams, params@) + "): "@
            + display(tparams, false, *ret) + ")"@,
        Hint::Access(root, consts) => match *root {
            Hint::Apply(name, _) => name_display(tparams, name) + "::"@ + join(
                strings_of(consts@),
                "::"@,
            ),
            _ => Seq::empty(),
        },
        Hint::Nullable(inner) => match *inner {
            Hint::Soft(softened) => "@?"@ + display(tparams, false, *softened),
            _ => "?"@ + display(tparams, false, *inner),
        },
        Hint::Refinement(inner) => display(tparams, strip, *inner),
        Hint::Shape(fields) => names::HH@ + "\\"@ + ("shape("@ + join(
            display_fields(tparams, fields@),
            ", "@,
        ) + ")"@),
        Hint::Tuple(required) => "("@ + display_list(tparams, required@) + ")"@,
        Hint::Like(inner) => "~"@ + display(tparams, false, *inner),
        Hint::Soft(inner) => "@"@ + display(tparams, false, *inner),
        Hint::Prim(_)
        | Hint::Mixed
        | Hint::Nonnull
        | Hint::This
        | Hint::Dynamic
        | Hint::Nothing
        | Hint::Union(_)
        | Hint::Intersection(_)
        | Hint::VecOrDict(_, _)
        | Hint::FunContext(_)
        | Hint::Var(_) => keyword_of(h).unwrap(),
    }
}

/// The strings of the hints of a list, each shown in full.
pub open spec fn display_each(tparams: Seq<Seq<char>>, hints: Seq<Hint>) -> Seq<Seq<char>>
    decreases hints, 0int,
{
    Seq::new(
        hints.len(),
        |i: int|
            if 0 <= i < hints.len() {
                display(tparams, false, hints[i])
            } else {
                Seq::empty()
            },
    )
}

/// The hints of a list, shown in full and separated by a comma and a space.
pub open spec fn display_list(tparams: Seq<Seq<char>>, hints: Seq<Hint>) -> Seq<char>
    decreases hints, 1int,
{
    join(display_each(tparams, hints), ", "@)
}

/// How the name of a shape field is shown: a string in single quotes, a
/// class name in single quotes, or a class, two colons and a constant.
pub open spec fn field_name_display(tparams: Seq<Seq<char>>, name: ShapeFieldName) -> Seq<char> {
    match name {
        ShapeFieldName::LitStr(text) => "'"@ + text@ + "'"@,
        ShapeFieldName::ClassName(class) => "'"@ + name_display(tparams, class) + "'"@,
        ShapeFieldName::ClassConst(class, constant) => name_display(tparams, class) + "::"@
            + constant@,
    }
}

/// How a shape field is shown: a question mark if it is optional, its name,
/// an arrow and its hint.
pub open spec fn field_display(tparams: Seq<Seq<char>>, field: ShapeField) -> Seq<char>
    decreases field,
{
    (if field.optional {
        "?"@
    } else {
        ""@
    }) + field_name_display(tparams, field.name) + "=>"@ + display(tparams, false, field.hint)
}

/// The strings of the fields of a shape, in the order of the list.
pub open spec fn display_fields(tparams: Seq<Seq<char>>, fields: Seq<ShapeField>) -> Seq<
    Seq<char>,
>
    decreases fields,
{
    Seq::new(
        fields.len(),
        |i: int|
            if 0 <= i < fields.len() {
                field_display(tparams, fields[i])
            } else {
                Seq::empty()
            },
    )
}

/// The keyword of a primitive.
pub fn prim_to_string(prim: &Tprim) -> (r: &'static str)
    ensures
        r@ == prim_keyword(*prim),
{
    match prim {
        Tprim::Tnull => names::NULL,
        Tprim::Tvoid => names::VOID,
        Tprim::Tint => names::INT,
        Tprim::Tbool => names::BOOL,
        Tprim::Tfloat => names::FLOAT,
        Tprim::Tstring => names::STRING,
        Tprim::Tresource => names::RESOURCE,
        Tprim::Tnum => names::NUM,
        Tprim::Tarraykey => names::ARRAYKEY,
        Tprim::Tnoreturn => names::NORETURN,
    }
}

/// Looks a form up in the name table: its keyword, or `None` for a form
/// that has a rule of its own.
pub fn hint_to_string(h: &Hint) -> (r: Option<&'static str>)
    ensures
        r is Some <==> has_keyword(*h),
        r matches Some(keyword) ==> keyword_of(*h) == Some(keyword@),
{
    match h {
        Hint::Prim(prim) => Some(prim_to_string(prim)),
        Hint::Mixed | Hint::Union(_) | Hint::Intersection(_) => Some(names::MIXED),
        Hint::Nonnull => Some(names::NONNULL),
        Hint::This => Some(names::THIS),
        Hint::Dynamic => Some(names::DYNAMIC),
        Hint::Nothing => Some(names::NOTHING),
        Hint::VecOrDict(_, _) => Some(names::VEC_OR_DICT),
        Hint::FunContext(_) => Some(names::FUN_CONTEXT),
        Hint::Var(_) => Some(names::TYPE_VARIABLE),
        Hint::Apply(_, _)
        | Hint::Nullable(_)
        | Hint::Like(_)
        | Hint::Fun(_, _)
        | Hint::Tuple(_)
        | Hint::ClassPtr(_, _)
        | Hint::Shape(_)
        | Hint::Access(_, _)
        | Hint::Soft(_)
        | Hint::Refinement(_)
        | Hint::Wildcard
        | Hint::Abstr(_) => None,
    }
}

/// Shows a name: a generic parameter as it is written, any other name in
/// the form that the mangler gave it.
pub fn fmt_name_or_prim(tparams: &[&str], name: &Name) -> (r: String)
    ensures
        r@ == name_display(names_of(tparams), *name),
{
    if contains_name(tparams, name.name.as_str()) {
        name.name.clone()
    } else {
        match &name.xhp {
            Some(element) => element.clone(),
            None => name.mangled.clone(),
        }
    }
}

/// Shows the name of a shape field.
pub fn fmt_field_name(tparams: &[&str], name: &ShapeFieldName) -> (r: String)
    ensures
        r@ == field_name_display(names_of(tparams), *name),
{
    match name {
        ShapeFieldName::LitStr(text) => {
            let mut out = String::from_str("'");
            out.append(text.as_str());
            out.append("'");
            out
        },
        ShapeFieldName::ClassName(class) => {
            let shown = fmt_name_or_prim(tparams, class);
            let mut out = String::from_str("'");
            out.append(shown.as_str());
            out.append("'");
            out
        },
        ShapeFieldName::ClassConst(class, constant) => {
            let mut out = fmt_name_or_prim(tparams, class);
            out.append("::");
            out.append(constant.as_str());
            out
        },
    }
}

/// Shows a hint.
///
/// Every form is shown. The one failure is a type constant that the
/// formatter looks at and that is read from something that is no named type.
pub fn fmt_hint(tparams: &[&str], strip_tparams: bool, hint: &Hint) -> (r: Result<
    String,
    LoweringError,
>)
    ensures
        r is Ok <==> well_formed(strip_tparams, *hint),
        r matches Ok(shown) ==> shown@ == display(names_of(tparams), strip_tparams, *hint),
        r matches Err(e) ==> e is MalformedTypeConstant,
    decreases hint,
{
    match hint {
        Hint::Abstr(name) => Ok(fmt_name_or_prim(tparams, name)),
        Hint::Apply(name, args) => {
            let mut out = fmt_name_or_prim(tparams, name);
            if args.len() == 0 || strip_tparams {
                assert(strip_tparams || all_well_formed(args@));
                Ok(out)
            } else {
                match fmt_hints(tparams, args) {
                    Ok(list) => {
                        out.append("<");
                        out.append(list.as_str());
                        out.append(">");
                        Ok(out)
                    },
                    Err(e) => Err(e),
                }
            }
        },
        Hint::ClassPtr(kind, inner) => {
            let mut out = String::from_str(
                match kind {
                    ClassPtrKind::CKclass => "class",
                    ClassPtrKind::CKenum => "enum",
                },
            );
            match fmt_hint(tparams, false, inner) {
                Ok(shown) => {
                    out.append("<");
                    out.append(shown.as_str());
                    out.append(">");
                    Ok(out)
                },
                Err(e) => Err(e),
            }
        },
        Hint::Wildcard => Ok(String::from_str("_")),
        Hint::Fun(params, ret) => {
            let list = match fmt_hints(tparams, params) {
                Ok(list) => list,
                Err(e) => {
                    return Err(e);
                },
            };
            match fmt_hint(tparams, false, ret) {
                Ok(shown) => {
                    let mut out = String::from_str("(function (");
                    out.append(list.as_str());
                    out.append("): ");
                    out.append(shown.as_str());
                    out.append(")");
                    Ok(out)
                },
                Err(e) => Err(e),
            }
        },
        Hint::Access(root, consts) => {
            match &**root {
                Hint::Apply(name, _) => {
                    let mut out = fmt_name_or_prim(tparams, name);
                    let path = join_strings(consts, "::");
                    out.append("::");
                    out.append(path.as_str());
                    Ok(out)
                },
                _ => Err(LoweringError::MalformedTypeConstant),
            }
        },
        Hint::Nullable(inner) => {
            match &**inner {
                Hint::Soft(softened) => {
                    proof {
                        assert(well_formed(false, **inner) <==> well_formed(false, **softened))
                            by {
                            reveal_with_fuel(well_formed, 2);
                        }
                    }
                    match fmt_hint(tparams, false, softened) {
                        Ok(shown) => {
                            let mut out = String::from_str("@?");
                            out.append(shown.as_str());
                            Ok(out)
                        },
                        Err(e) => Err(e),
                    }
                },
                _ => {
                    match fmt_hint(tparams, false, inner) {
                        Ok(shown) => {
                            let mut out = String::from_str("?");
                            out.append(shown.as_str());
                            Ok(out)
                        },
                        Err(e) => Err(e),
                    }
                },
            }
        },
        Hint::Refinement(inner) => fmt_hint(tparams, strip_tparams, inner),
        Hint::Shape(fields) => {
            match fmt_fields(tparams, fields) {
                Ok(list) => {
                    let mut body = String::from_str("shape(");
                    body.append(list.as_str());
                    body.append(")");
                    Ok(prefix_namespace(names::HH, body.as_str()))
                },
                Err(e) => Err(e),
            }
        },
        Hint::Tuple(required) => {
            match fmt_hints(tparams, required) {
                Ok(list) => {
                    let mut out = String::from_str("(");
                    out.append(list.as_str());
                    out.append(")");
                    Ok(out)
                },
                Err(e) => Err(e),
            }
        },
        Hint::Like(inner) => {
            match fmt_hint(tparams, false, inner) {
                Ok(shown) => {
                    let mut out = String::from_str("~");
                    out.append(shown.as_str());
                    Ok(out)
                },
                Err(e) => Err(e),
            }
        },
        Hint::Soft(inner) => {
            match fmt_hint(tparams, false, inner) {
                Ok(shown) => {
                    let mut out = String::from_str("@");
                    out.append(shown.as_str());
                    Ok(out)
                },
                Err(e) => Err(e),
            }
        },
        Hint::Prim(_)
        | Hint::Mixed
        | Hint::Nonnull
        | Hint::This
        | Hint::Dynamic
        | Hint::Nothing
        | Hint::Union(_)
        | Hint::Intersection(_)
        | Hint::FunContext(_)
        | Hint::Var(_)
        | Hint::VecOrDict(_, _) => {
            match hint_to_string(hint) {
                Some(keyword) => Ok(String::from_str(keyword)),
                None => unreached(),
            }
        },
    }
}

/// Shows the hints of a list in full, separated by a comma and a space.
/// Fails exactly when one of them is not well formed.
pub fn fmt_hints(tparams: &[&str], hints: &Vec<Hint>) -> (r: Result<String, LoweringError>)
    ensures
        r is Ok <==> all_well_formed(hints@),
        r matches Ok(shown) ==> shown@ == display_list(names_of(tparams), hints@),
        r matches Err(e) ==> e is MalformedTypeConstant,
    decreases hints,
{
    let mut out = String::new();
    let ghost parts = display_each(names_of(tparams), hints@);
    let mut i: usize = 0;
    while i < hints.len()
        invariant
            i <= hints.len(),
            forall|j: int| 0 <= j < i ==> well_formed(false, #[trigger] hints@[j]),
            parts == display_each(names_of(tparams), hints@),
            out@ == join(parts.take(i as int), ", "@),
        decreases hints.len() - i,
    {
        match fmt_hint(tparams, false, &hints[i]) {
            Ok(shown) => {
                proof {
                    lemma_join_take(parts, ", "@, i as int);
                }
                if i > 0 {
                    out.append(", ");
                }
                out.append(shown.as_str());
            },
            Err(e) => {
                return Err(e);
            },
        }
        i += 1;
    }
    proof {
        assert(parts.take(i as int) =~= parts);
    }
    Ok(out)
}

/// Shows the fields of a shape in the order of the list, separated by a
/// comma and a space. Fails exactly when the hint of one of them is not well
/// formed.
pub fn fmt_fields(tparams: &[&str], fields: &Vec<ShapeField>) -> (r: Result<
    String,
    LoweringError,
>)
    ensures
        r is Ok <==> all_fields_well_formed(fields@),
        r matches Ok(shown) ==> shown@ == join(
            display_fields(names_of(tparams), fields@),
            ", "@,
        ),
        r matches Err(e) ==> e is MalformedTypeConstant,
    decreases fields,
{
    let mut out = String::new();
    let ghost parts = display_fields(names_of(tparams), fields@);
    let mut i: usize = 0;
    while i < fields.len()
        invariant
            i <= fields.len(),
            forall|j: int| 0 <= j < i ==> well_formed(false, (#[trigger] fields@[j]).hint),
            parts == display_fields(names_of(tparams), fields@),
            out@ == join(parts.take(i as int), ", "@),
        decreases fields.len() - i,
    {
        let field = &fields[i];
        match fmt_hint(tparams, false, &field.hint) {
            Ok(shown) => {
                proof {
                    lemma_join_take(parts, ", "@, i as int);
                }
                if i > 0 {
                    out.append(", ");
                }
                let label = fmt_field_name(tparams, &field.name);
                out.append(if field.optional { "?" } else { "" });
                out.append(label.as_str());
                out.append("=>");
                out.append(shown.as_str());
            },
            Err(e) => {
                return Err(e);
            },
        }
        i += 1;
    }
    proof {
        assert(parts.take(i as int) =~= parts);
    }
    Ok(out)
}

} // verus!
