use hint_lowering::constraint::Constraint;
use hint_lowering::error::LoweringError;
use hint_lowering::flags::TypeConstraintFlags;
use hint_lowering::hint::Hint;
use hint_lowering::hint::Kind;
use hint_lowering::hint::Name;
use hint_lowering::hint::Tprim;
use hint_lowering::native::emit_type_constraint_for_native_function;
use hint_lowering::native::get_flags;
use hint_lowering::nullability::add_nullable;
use hint_lowering::nullability::can_be_nullable;
use hint_lowering::nullability::try_add_nullable;
use hint_lowering::type_info::hint_to_class;
use hint_lowering::type_info::hint_to_type_info;
use hint_lowering::type_info::hint_to_type_info_union;
use hint_lowering::type_info::is_simple_hint;
use hint_lowering::type_info::make_type_info;
use hint_lowering::type_info::param_hint_to_type_info;
use hint_lowering::type_info::TypeInfo;

fn class_t(name: &str) -> Name {
    Name { name: format!("\\{}", name), mangled: name.to_string(), xhp: None }
}

fn apply_t(name: &str, args: Vec<Hint>) -> Hint {
    Hint::Apply(class_t(name), args)
}

fn int_t() -> Hint {
    Hint::Prim(Tprim::Tint)
}

fn nullable_t(h: Hint) -> Hint {
    Hint::Nullable(Box::new(h))
}

fn soft_t(h: Hint) -> Hint {
    Hint::Soft(Box::new(h))
}

fn malformed_t() -> Hint {
    Hint::Access(Box::new(Hint::This), vec!["T".to_string()])
}

fn constant_t() -> Hint {
    Hint::Access(Box::new(apply_t("Foo", vec![])), vec!["T".to_string()])
}

fn none_t() -> TypeConstraintFlags {
    TypeConstraintFlags::no_flags()
}

fn pair_t() -> TypeConstraintFlags {
    TypeConstraintFlags::nullable().union(TypeConstraintFlags::display_nullable())
}

fn info_t(shown: &str, name: Option<&str>, flags: TypeConstraintFlags) -> TypeInfo {
    TypeInfo {
        user_type: Some(shown.to_string()),
        type_constraint: Constraint { name: name.map(|n| n.to_string()), flags },
    }
}

#[test]
fn nullable_pair_is_added_on_demand() {
    assert_eq!(add_nullable(false, none_t()), none_t());
    assert_eq!(add_nullable(true, none_t()), pair_t());
    assert_eq!(add_nullable(false, TypeConstraintFlags::soft()), TypeConstraintFlags::soft());
    assert_eq!(
        add_nullable(true, TypeConstraintFlags::soft()),
        pair_t().union(TypeConstraintFlags::soft())
    );
    assert_eq!(add_nullable(true, pair_t()), pair_t());
    assert_eq!(add_nullable(true, none_t()).bits, 0x101);
}

#[test]
fn forms_that_never_take_nullability() {
    assert!(!can_be_nullable(&constant_t()));
    assert!(!can_be_nullable(&Hint::Fun(vec![], Box::new(int_t()))));
    assert!(!can_be_nullable(&Hint::Dynamic));
    assert!(!can_be_nullable(&Hint::Nonnull));
    assert!(!can_be_nullable(&Hint::Mixed));
    assert!(!can_be_nullable(&Hint::Wildcard));
    assert!(!can_be_nullable(&apply_t("HH\\dynamic", vec![])));
    assert!(!can_be_nullable(&apply_t("HH\\nonnull", vec![])));
    assert!(!can_be_nullable(&apply_t("HH\\mixed", vec![int_t()])));
}

#[test]
fn nullable_hint_defers_to_the_hint_under_it() {
    assert!(can_be_nullable(&nullable_t(int_t())));
    assert!(!can_be_nullable(&nullable_t(Hint::Mixed)));
    assert!(!can_be_nullable(&nullable_t(Hint::Fun(vec![], Box::new(int_t())))));
    assert!(!can_be_nullable(&nullable_t(nullable_t(Hint::Dynamic))));
    assert!(can_be_nullable(&nullable_t(nullable_t(int_t()))));
}

#[test]
fn nullable_type_constant_takes_nullability() {
    assert!(can_be_nullable(&nullable_t(constant_t())));
    assert!(can_be_nullable(&nullable_t(malformed_t())));
    assert!(can_be_nullable(&nullable_t(nullable_t(constant_t()))));
}

#[test]
fn every_other_form_takes_nullability() {
    assert!(can_be_nullable(&apply_t("Foo", vec![])));
    assert!(can_be_nullable(&apply_t("HH\\Dynamic", vec![])));
    assert!(can_be_nullable(&Hint::Abstr(class_t("T"))));
    assert!(can_be_nullable(&Hint::Intersection(vec![])));
    assert!(can_be_nullable(&Hint::Union(vec![])));
    assert!(can_be_nullable(&Hint::Like(Box::new(Hint::Mixed))));
    assert!(can_be_nullable(&soft_t(Hint::Mixed)));
    assert!(can_be_nullable(&Hint::Refinement(Box::new(Hint::Mixed))));
    assert!(can_be_nullable(&Hint::Nothing));
    assert!(can_be_nullable(&Hint::This));
    assert!(can_be_nullable(&int_t()));
    assert!(can_be_nullable(&Hint::Shape(vec![])));
    assert!(can_be_nullable(&Hint::Tuple(vec![])));
    assert!(can_be_nullable(&Hint::Var("v".to_string())));
    assert!(can_be_nullable(&Hint::FunContext("c".to_string())));
    assert!(can_be_nullable(&Hint::VecOrDict(None, Box::new(int_t()))));
}

#[test]
fn nullability_is_added_where_the_hint_takes_it() {
    assert_eq!(try_add_nullable(true, &int_t(), none_t()), pair_t());
    assert_eq!(try_add_nullable(false, &int_t(), none_t()), none_t());
    assert_eq!(try_add_nullable(true, &Hint::Mixed, none_t()), none_t());
    assert_eq!(
        try_add_nullable(true, &Hint::Mixed, TypeConstraintFlags::soft()),
        TypeConstraintFlags::soft()
    );
}

#[test]
fn simple_hints_of_a_parameter() {
    assert!(is_simple_hint(&[], &apply_t("Foo", vec![])));
    assert!(is_simple_hint(&["T"], &apply_t("Foo", vec![])));
    assert!(is_simple_hint(&[], &Hint::Abstr(Name::plain("T"))));
    assert!(is_simple_hint(&[], &int_t()));
    assert!(is_simple_hint(&[], &Hint::Tuple(vec![])));
    assert!(is_simple_hint(&[], &Hint::Shape(vec![])));
    assert!(is_simple_hint(&[], &Hint::Refinement(Box::new(nullable_t(int_t())))));
    assert!(is_simple_hint(&[], &Hint::Wildcard));
    assert!(is_simple_hint(&[], &Hint::This));
    assert!(is_simple_hint(&[], &Hint::Nothing));
    assert!(is_simple_hint(&[], &Hint::Union(vec![])));
    assert!(is_simple_hint(&[], &Hint::Intersection(vec![])));
    assert!(is_simple_hint(&[], &Hint::Var("v".to_string())));
}

#[test]
fn hints_of_a_parameter_that_are_not_simple() {
    assert!(!is_simple_hint(&[], &Hint::Like(Box::new(int_t()))));
    assert!(!is_simple_hint(&[], &soft_t(int_t())));
    assert!(!is_simple_hint(&[], &nullable_t(int_t())));
    assert!(!is_simple_hint(&[], &constant_t()));
    assert!(!is_simple_hint(&[], &Hint::Fun(vec![], Box::new(int_t()))));
    assert!(!is_simple_hint(&[], &Hint::Dynamic));
    assert!(!is_simple_hint(&[], &Hint::Nonnull));
    assert!(!is_simple_hint(&[], &Hint::Mixed));
    assert!(!is_simple_hint(&[], &apply_t("Foo", vec![int_t()])));
    assert!(!is_simple_hint(&[], &apply_t("HH\\dynamic", vec![])));
    assert!(!is_simple_hint(&[], &apply_t("HH\\nonnull", vec![])));
    assert!(!is_simple_hint(&[], &apply_t("HH\\mixed", vec![])));
    assert!(!is_simple_hint(&["T"], &Hint::Apply(Name::plain("T"), vec![])));
    assert!(!is_simple_hint(&["T"], &Hint::Abstr(Name::plain("T"))));
}

#[test]
fn bare_class_as_parameter_has_no_flags() {
    let h = apply_t("Foo", vec![]);
    assert_eq!(
        hint_to_type_info(&Kind::Param, false, false, &[], &h),
        Ok(info_t("Foo", Some("Foo"), none_t()))
    );
    assert_eq!(
        hint_to_type_info(&Kind::Param, true, false, &["T"], &h),
        Ok(info_t("Foo", Some("Foo"), none_t()))
    );
}

#[test]
fn bare_class_as_nullable_parameter_has_the_nullable_pair() {
    let h = apply_t("Foo", vec![]);
    assert_eq!(
        hint_to_type_info(&Kind::Param, false, true, &[], &h),
        Ok(info_t("Foo", Some("Foo"), pair_t()))
    );
}

#[test]
fn simple_parameter_drops_the_resolved_flags() {
    let h = Hint::Refinement(Box::new(soft_t(apply_t("Foo", vec![]))));
    assert_eq!(
        hint_to_type_info(&Kind::Param, false, false, &[], &h),
        Ok(info_t("@Foo", Some("Foo"), none_t()))
    );
    assert_eq!(
        hint_to_type_info(&Kind::Return, false, false, &[], &h),
        Ok(info_t("@Foo", Some("Foo"), TypeConstraintFlags::soft()))
    );
}

#[test]
fn parameter_that_is_not_simple_keeps_the_resolved_flags() {
    let h = soft_t(apply_t("Foo", vec![]));
    assert_eq!(
        hint_to_type_info(&Kind::Param, false, false, &[], &h),
        Ok(info_t("@Foo", Some("Foo"), TypeConstraintFlags::soft()))
    );
    assert_eq!(
        hint_to_type_info(&Kind::Param, false, true, &[], &h),
        Ok(info_t("@Foo", Some("Foo"), TypeConstraintFlags::soft().union(pair_t())))
    );
    let generic = Hint::Apply(Name::plain("T"), vec![]);
    assert_eq!(
        hint_to_type_info(&Kind::Param, false, false, &["T"], &generic),
        Ok(info_t("T", Some("T"), TypeConstraintFlags::type_var()))
    );
}

#[test]
fn parameter_path_goes_by_the_kind_it_is_given() {
    let generic = Hint::Apply(Name::plain("T"), vec![]);
    assert_eq!(
        param_hint_to_type_info(&Kind::UpperBound, false, true, &["T"], &generic),
        Ok(info_t("T", Some(""), TypeConstraintFlags::type_var().union(pair_t())))
    );
    assert_eq!(
        param_hint_to_type_info(&Kind::Param, false, true, &[], &Hint::Mixed),
        Ok(info_t("mixed", None, none_t()))
    );
}

#[test]
fn return_type_keeps_the_resolved_flags() {
    let generic = Hint::Apply(Name::plain("T"), vec![]);
    assert_eq!(
        hint_to_type_info(&Kind::Return, false, false, &["T"], &generic),
        Ok(info_t("T", Some("T"), TypeConstraintFlags::type_var()))
    );
    assert_eq!(
        hint_to_type_info(&Kind::TypeDef, false, false, &["T"], &generic),
        Ok(info_t("T", Some(""), TypeConstraintFlags::type_var()))
    );
    let nullable = nullable_t(apply_t("Foo", vec![int_t()]));
    assert_eq!(
        hint_to_type_info(&Kind::Property, false, false, &[], &nullable),
        Ok(info_t("?Foo<int>", Some("Foo"), pair_t()))
    );
}

#[test]
fn return_type_shows_what_is_unwrapped() {
    let h = apply_t("HH\\Awaitable", vec![apply_t("HH\\Awaitable", vec![int_t()])]);
    assert_eq!(
        hint_to_type_info(&Kind::Return, true, false, &[], &h),
        Ok(info_t("HH\\Awaitable<HH\\Awaitable<int>>", Some("HH\\Awaitable"), none_t()))
    );
    let void = apply_t("HH\\Awaitable", vec![Hint::Prim(Tprim::Tvoid)]);
    assert_eq!(
        hint_to_type_info(&Kind::Return, true, false, &[], &void),
        Ok(info_t("HH\\Awaitable<void>", None, none_t()))
    );
}

#[test]
fn upper_bound_adds_its_flag() {
    assert_eq!(
        hint_to_type_info(&Kind::UpperBound, false, false, &[], &apply_t("Foo", vec![])),
        Ok(info_t("Foo", Some("Foo"), TypeConstraintFlags::upper_bound()))
    );
    assert_eq!(
        hint_to_type_info(&Kind::UpperBound, false, false, &[], &Hint::Mixed),
        Ok(info_t("mixed", None, TypeConstraintFlags::upper_bound()))
    );
    assert_eq!(
        hint_to_type_info(&Kind::UpperBound, false, true, &[], &nullable_t(int_t())),
        Ok(info_t("?int", Some("int"), TypeConstraintFlags::upper_bound().union(pair_t())))
    );
}

#[test]
fn type_alias_is_nullable_whatever_the_hint() {
    assert_eq!(
        hint_to_type_info(&Kind::TypeDef, false, true, &[], &Hint::Mixed),
        Ok(info_t("mixed", None, pair_t()))
    );
    assert_eq!(
        hint_to_type_info(&Kind::TypeDef, false, true, &[], &constant_t()),
        Ok(info_t("Foo::T", Some(""), TypeConstraintFlags::type_constant().union(pair_t())))
    );
    assert_eq!(
        hint_to_type_info(&Kind::TypeDef, false, false, &[], &Hint::Mixed),
        Ok(info_t("mixed", None, none_t()))
    );
}

#[test]
fn other_kinds_are_nullable_where_the_hint_takes_it() {
    for kind in [Kind::Return, Kind::Property, Kind::UpperBound, Kind::Param] {
        let extra = if kind == Kind::UpperBound {
            TypeConstraintFlags::upper_bound()
        } else {
            none_t()
        };
        assert_eq!(
            hint_to_type_info(&kind, false, true, &[], &Hint::Mixed),
            Ok(info_t("mixed", None, extra))
        );
        assert_eq!(
            hint_to_type_info(&kind, false, true, &[], &constant_t()),
            Ok(info_t("Foo::T", Some(""), TypeConstraintFlags::type_constant().union(extra)))
        );
        assert_eq!(
            hint_to_type_info(&kind, false, true, &[], &Hint::Tuple(vec![int_t()])),
            Ok(info_t("(int)", Some("HH\\varray"), pair_t().union(extra)))
        );
    }
}

#[test]
fn malformed_type_constant_aborts_the_record() {
    for kind in [Kind::Return, Kind::Property, Kind::UpperBound, Kind::Param, Kind::TypeDef] {
        assert_eq!(
            hint_to_type_info(&kind, false, false, &[], &malformed_t()),
            Err(LoweringError::MalformedTypeConstant)
        );
        assert_eq!(
            hint_to_type_info(&kind, false, true, &[], &nullable_t(malformed_t())),
            Err(LoweringError::MalformedTypeConstant)
        );
    }
    assert_eq!(
        param_hint_to_type_info(&Kind::Param, false, false, &[], &malformed_t()),
        Err(LoweringError::MalformedTypeConstant)
    );
    assert_eq!(
        make_type_info(&[], &malformed_t(), None, none_t()),
        Err(LoweringError::MalformedTypeConstant)
    );
}

#[test]
fn record_is_put_together_from_its_parts() {
    assert_eq!(
        make_type_info(&[], &nullable_t(int_t()), Some("x".to_string()), pair_t()),
        Ok(info_t("?int", Some("x"), pair_t()))
    );
    assert_eq!(make_type_info(&[], &int_t(), None, none_t()), Ok(info_t("int", None, none_t())));
    assert_eq!(
        TypeInfo::new(Some("int".to_string()), Constraint::default()),
        info_t("int", None, none_t())
    );
}

#[test]
fn union_gives_one_record_for_each_member() {
    let h = Hint::Union(vec![int_t(), nullable_t(apply_t("Foo", vec![])), Hint::Mixed]);
    assert_eq!(
        hint_to_type_info_union(&Kind::TypeDef, false, false, &[], &h),
        Ok(vec![
            info_t("int", Some("int"), none_t()),
            info_t("?Foo", Some("Foo"), pair_t()),
            info_t("mixed", None, none_t()),
        ])
    );
    assert_eq!(
        hint_to_type_info_union(&Kind::TypeDef, false, true, &[], &h),
        Ok(vec![
            info_t("int", Some("int"), pair_t()),
            info_t("?Foo", Some("Foo"), pair_t()),
            info_t("mixed", None, pair_t()),
        ])
    );
}

#[test]
fn union_without_members_gives_no_record() {
    assert_eq!(
        hint_to_type_info_union(&Kind::TypeDef, false, false, &[], &Hint::Union(vec![])),
        Ok(vec![])
    );
}

#[test]
fn union_under_a_union_is_one_record() {
    let h = Hint::Union(vec![Hint::Union(vec![int_t(), int_t()]), int_t()]);
    assert_eq!(
        hint_to_type_info_union(&Kind::TypeDef, false, false, &[], &h),
        Ok(vec![info_t("mixed", None, none_t()), info_t("int", Some("int"), none_t())])
    );
}

#[test]
fn hint_that_is_no_union_gives_one_record() {
    assert_eq!(
        hint_to_type_info_union(&Kind::TypeDef, false, false, &[], &int_t()),
        Ok(vec![info_t("int", Some("int"), none_t())])
    );
    assert_eq!(
        hint_to_type_info_union(&Kind::Param, false, true, &[], &apply_t("Foo", vec![])),
        Ok(vec![info_t("Foo", Some("Foo"), pair_t())])
    );
    let nullable_union = nullable_t(Hint::Union(vec![int_t()]));
    assert_eq!(
        hint_to_type_info_union(&Kind::TypeDef, false, false, &[], &nullable_union),
        Ok(vec![info_t("?mixed", None, none_t())])
    );
}

#[test]
fn union_fails_with_its_first_malformed_member() {
    let h = Hint::Union(vec![int_t(), malformed_t(), int_t()]);
    assert_eq!(
        hint_to_type_info_union(&Kind::TypeDef, false, false, &[], &h),
        Err(LoweringError::MalformedTypeConstant)
    );
    assert_eq!(
        hint_to_type_info_union(&Kind::TypeDef, false, false, &[], &malformed_t()),
        Err(LoweringError::MalformedTypeConstant)
    );
}

#[test]
fn class_of_a_named_type() {
    assert_eq!(hint_to_class(&apply_t("NS\\Foo", vec![int_t()])), "NS\\Foo");
    let xhp = Hint::Apply(
        Name {
            name: "\\:el".to_string(),
            mangled: "xhp_el".to_string(),
            xhp: Some(":el".to_string()),
        },
        vec![],
    );
    assert_eq!(hint_to_class(&xhp), "xhp_el");
}

#[test]
fn class_of_anything_else() {
    assert_eq!(hint_to_class(&int_t()), "__type_is_not_class__");
    assert_eq!(hint_to_class(&Hint::Abstr(class_t("Foo"))), "__type_is_not_class__");
    assert_eq!(hint_to_class(&nullable_t(apply_t("Foo", vec![]))), "__type_is_not_class__");
}

#[test]
fn flags_of_the_form_of_a_hint() {
    assert_eq!(get_flags(&[], none_t(), &int_t()), none_t());
    assert_eq!(get_flags(&[], none_t(), &nullable_t(int_t())), pair_t());
    assert_eq!(get_flags(&[], none_t(), &soft_t(int_t())), TypeConstraintFlags::soft());
    assert_eq!(
        get_flags(&[], none_t(), &nullable_t(soft_t(int_t()))),
        pair_t().union(TypeConstraintFlags::soft())
    );
    assert_eq!(get_flags(&[], none_t(), &constant_t()), TypeConstraintFlags::type_constant());
    assert_eq!(
        get_flags(&[], none_t(), &soft_t(malformed_t())),
        TypeConstraintFlags::soft().union(TypeConstraintFlags::type_constant())
    );
    assert_eq!(
        get_flags(&["T"], none_t(), &Hint::Apply(Name::plain("T"), vec![])),
        TypeConstraintFlags::type_var()
    );
    assert_eq!(get_flags(&["U"], none_t(), &Hint::Apply(Name::plain("T"), vec![])), none_t());
    assert_eq!(get_flags(&["T"], none_t(), &Hint::Abstr(Name::plain("T"))), none_t());
    assert_eq!(get_flags(&[], none_t(), &Hint::Like(Box::new(nullable_t(int_t())))), none_t());
    assert_eq!(
        get_flags(&[], TypeConstraintFlags::upper_bound(), &nullable_t(int_t())),
        pair_t().union(TypeConstraintFlags::upper_bound())
    );
}

#[test]
fn native_return_without_hint_is_void() {
    let ti = info_t("Foo", Some("Foo"), TypeConstraintFlags::soft());
    assert_eq!(
        emit_type_constraint_for_native_function(&[], None, ti),
        info_t("Foo", Some("HH\\void"), none_t())
    );
}

#[test]
fn native_return_without_displayed_form_is_void() {
    let ti = TypeInfo { user_type: None, type_constraint: Constraint::default() };
    let expected = TypeInfo {
        user_type: None,
        type_constraint: Constraint { name: Some("HH\\void".to_string()), flags: none_t() },
    };
    assert_eq!(emit_type_constraint_for_native_function(&[], Some(&int_t()), ti.clone()), expected);
    assert_eq!(emit_type_constraint_for_native_function(&[], None, ti), expected);
}

#[test]
fn native_return_of_mixed_or_callable_is_not_enforced() {
    let h = apply_t("HH\\mixed", vec![]);
    let mixed = info_t("HH\\mixed", Some("x"), pair_t());
    assert_eq!(
        emit_type_constraint_for_native_function(&[], Some(&h), mixed),
        info_t("HH\\mixed", None, none_t())
    );
    let callable = info_t("callable", Some("callable"), none_t());
    assert_eq!(
        emit_type_constraint_for_native_function(&[], Some(&h), callable),
        info_t("callable", None, none_t())
    );
}

#[test]
fn native_return_of_void_takes_the_flags_of_the_form() {
    let ti = || info_t("HH\\void", None, none_t());
    assert_eq!(
        emit_type_constraint_for_native_function(&[], Some(&apply_t("HH\\void", vec![])), ti()),
        info_t("HH\\void", Some("HH\\void"), none_t())
    );
    let h = nullable_t(soft_t(apply_t("HH\\void", vec![])));
    assert_eq!(
        emit_type_constraint_for_native_function(&[], Some(&h), ti()),
        info_t("HH\\void", Some("HH\\void"), pair_t().union(TypeConstraintFlags::soft()))
    );
    let generic = Hint::Apply(Name::plain("T"), vec![]);
    assert_eq!(
        emit_type_constraint_for_native_function(&["T"], Some(&generic), ti()),
        info_t("HH\\void", Some("HH\\void"), TypeConstraintFlags::type_var())
    );
}

#[test]
fn native_return_of_anything_else_is_unchanged() {
    let ti = info_t("Foo", Some("Foo"), TypeConstraintFlags::soft());
    assert_eq!(
        emit_type_constraint_for_native_function(&[], Some(&soft_t(apply_t("Foo", vec![]))), ti),
        info_t("Foo", Some("Foo"), TypeConstraintFlags::soft())
    );
    let no_name = info_t("mixed", None, none_t());
    assert_eq!(
        emit_type_constraint_for_native_function(&[], Some(&Hint::Mixed), no_name),
        info_t("mixed", None, none_t())
    );
    let void = info_t("void", Some("void"), none_t());
    assert_eq!(
        emit_type_constraint_for_native_function(&[], Some(&Hint::Prim(Tprim::Tvoid)), void),
        info_t("void", Some("void"), none_t())
    );
}

#[test]
fn union_stops_at_its_first_malformed_member() {
    let h = Hint::Union(vec![int_t(), malformed_t(), Hint::Var("v".to_string())]);
    assert_eq!(
        hint_to_type_info_union(&Kind::TypeDef, false, false, &[], &h),
        Err(LoweringError::MalformedTypeConstant)
    );
}

#[test]
fn forms_of_the_name_table_alone_have_their_record() {
    let var = || Hint::Var("v".to_string());
    assert_eq!(
        hint_to_type_info(&Kind::Return, false, false, &[], &var()),
        Ok(info_t("var", Some("var"), none_t()))
    );
    assert_eq!(
        hint_to_type_info(&Kind::Param, false, true, &[], &Hint::FunContext("f".to_string())),
        Ok(info_t("ctx", Some("ctx"), pair_t()))
    );
    assert_eq!(
        hint_to_type_info(
            &Kind::UpperBound,
            false,
            false,
            &[],
            &Hint::VecOrDict(None, Box::new(int_t()))
        ),
        Ok(info_t("vec_or_dict", Some("vec_or_dict"), TypeConstraintFlags::upper_bound()))
    );
    assert_eq!(
        hint_to_type_info_union(&Kind::TypeDef, false, false, &[], &Hint::Union(vec![var()])),
        Ok(vec![info_t("var", Some("var"), none_t())])
    );
}

#[test]
fn record_has_the_upper_bound_flag_for_an_upper_bound_only() {
    let hints = vec![int_t(), Hint::Mixed, nullable_t(soft_t(apply_t("Foo", vec![]))), constant_t()];
    for h in &hints {
        for kind in [Kind::Return, Kind::Property, Kind::UpperBound, Kind::Param, Kind::TypeDef] {
            for nullable in [false, true] {
                let info = hint_to_type_info(&kind, false, nullable, &[], h).unwrap();
                let flags = info.type_constraint.flags;
                assert_eq!(
                    flags.contains(TypeConstraintFlags::upper_bound()),
                    kind == Kind::UpperBound
                );
                assert_eq!(
                    flags.contains(TypeConstraintFlags::nullable()),
                    flags.contains(TypeConstraintFlags::display_nullable())
                );
            }
        }
    }
}
