use type_inference::{apply, infer, Context, Expression, InferenceError, Type};

fn base_to_base() -> Type {
    Type::Arrow { parameter_type: Box::new(Type::Base), body_type: Box::new(Type::Base) }
}

fn identity() -> Expression {
    Expression::Abstraction {
        parameter_name: "a".to_string(),
        parameter_type: Type::Base,
        body: Box::new(Expression::Variable("a".to_string())),
    }
}

#[test]
fn literal_has_base_type() {
    for value in [0i64, 1, -1, 10, i64::MAX, i64::MIN] {
        let mut context = Context::new();
        assert_eq!(infer(&mut context, &Expression::IntLiteral(value)), Ok(Type::Base));
    }
}

#[test]
fn literal_has_base_type_under_bindings() {
    let mut context = Context::new();
    context.push("x".to_string(), base_to_base());
    assert_eq!(infer(&mut context, &Expression::IntLiteral(7)), Ok(Type::Base));
}

#[test]
fn unbound_variable_is_undefined() {
    let mut context = Context::new();
    assert_eq!(
        infer(&mut context, &Expression::Variable("x".to_string())),
        Err(InferenceError::UndefinedVariable("x".to_string()))
    );
}

#[test]
fn bound_variable_has_its_type() {
    let mut context = Context::new();
    context.push("f".to_string(), base_to_base());
    context.push("n".to_string(), Type::Base);
    assert_eq!(infer(&mut context, &Expression::Variable("f".to_string())), Ok(base_to_base()));
    assert_eq!(infer(&mut context, &Expression::Variable("n".to_string())), Ok(Type::Base));
    // The lookup copies the type: the binding can be used again.
    assert_eq!(infer(&mut context, &Expression::Variable("f".to_string())), Ok(base_to_base()));
}

#[test]
fn identity_abstraction_is_base_to_base() {
    let mut context = Context::new();
    assert_eq!(infer(&mut context, &identity()), Ok(base_to_base()));
}

#[test]
fn identity_applied_to_literal_is_base() {
    let expression = Expression::Application {
        function: Box::new(identity()),
        argument: Box::new(Expression::IntLiteral(10)),
    };
    let mut context = Context::new();
    assert_eq!(infer(&mut context, &expression), Ok(Type::Base));
}

#[test]
fn argument_of_wrong_type_is_a_mismatch() {
    let function = Expression::Abstraction {
        parameter_name: "a".to_string(),
        parameter_type: base_to_base(),
        body: Box::new(Expression::Variable("a".to_string())),
    };
    let expression = Expression::Application {
        function: Box::new(function),
        argument: Box::new(Expression::IntLiteral(1)),
    };
    let mut context = Context::new();
    assert_eq!(
        infer(&mut context, &expression),
        Err(InferenceError::TypeMismatch { expected: base_to_base(), actual: Type::Base })
    );
}

#[test]
fn applying_a_literal_is_not_a_function() {
    let expression = Expression::Application {
        function: Box::new(Expression::IntLiteral(1)),
        argument: Box::new(Expression::IntLiteral(2)),
    };
    let mut context = Context::new();
    assert_eq!(infer(&mut context, &expression), Err(InferenceError::NotAFunction(Type::Base)));
}

#[test]
fn arrow_types_equal_by_structure() {
    let first = Type::Arrow {
        parameter_type: Box::new(Type::Base),
        body_type: Box::new(Type::Base),
    };
    let second = Type::Arrow {
        parameter_type: Box::new(Type::Base),
        body_type: Box::new(Type::Base),
    };
    assert_eq!(first, second);
    assert!(first == second);
    assert_eq!(Type::Base, Type::Base);
}

#[test]
fn arrow_types_differ_when_a_component_differs() {
    let plain = base_to_base();
    let other_parameter = Type::Arrow {
        parameter_type: Box::new(base_to_base()),
        body_type: Box::new(Type::Base),
    };
    let other_body = Type::Arrow {
        parameter_type: Box::new(Type::Base),
        body_type: Box::new(base_to_base()),
    };
    assert_ne!(plain, other_parameter);
    assert_ne!(plain, other_body);
    assert_ne!(other_parameter, other_body);
    assert_ne!(plain, Type::Base);
    assert_ne!(Type::Base, plain);
    assert!(!(plain == other_body));
}

#[test]
fn nested_arrow_types_compare_in_depth() {
    let deep = |leaf: Type| {
        Type::arrow(Type::arrow(Type::Base, Type::arrow(Type::Base, leaf)), Type::Base)
    };
    assert_eq!(deep(Type::Base), deep(Type::Base));
    assert_ne!(deep(Type::Base), deep(base_to_base()));
}

#[test]
fn arrow_constructor_builds_the_variant() {
    assert_eq!(Type::arrow(Type::Base, Type::Base), base_to_base());
    assert_eq!(
        Type::arrow(base_to_base(), Type::Base),
        Type::Arrow { parameter_type: Box::new(base_to_base()), body_type: Box::new(Type::Base) }
    );
}

#[test]
fn cloned_type_equals_original() {
    let original = Type::arrow(base_to_base(), Type::arrow(Type::Base, base_to_base()));
    assert_eq!(original.clone(), original);
    assert_eq!(Type::Base.clone(), Type::Base);
}

#[test]
fn types_have_a_readable_form() {
    assert_eq!(format!("{:?}", Type::Base), "Base");
    assert_eq!(
        format!("{:?}", base_to_base()),
        "Arrow { parameter_type: Base, body_type: Base }"
    );
}

#[test]
fn binding_does_not_outlive_its_abstraction() {
    let mut context = Context::new();
    assert_eq!(infer(&mut context, &identity()), Ok(base_to_base()));
    assert_eq!(
        infer(&mut context, &Expression::Variable("a".to_string())),
        Err(InferenceError::UndefinedVariable("a".to_string()))
    );
    assert_eq!(context.get(&"a".to_string()), None);
    assert_eq!(context.pop(), None);
}

#[test]
fn binding_does_not_outlive_a_failed_body() {
    let failing = Expression::Abstraction {
        parameter_name: "a".to_string(),
        parameter_type: Type::Base,
        body: Box::new(Expression::Variable("missing".to_string())),
    };
    let mut context = Context::new();
    assert_eq!(
        infer(&mut context, &failing),
        Err(InferenceError::UndefinedVariable("missing".to_string()))
    );
    assert_eq!(
        infer(&mut context, &Expression::Variable("a".to_string())),
        Err(InferenceError::UndefinedVariable("a".to_string()))
    );
    assert_eq!(context.pop(), None);
}

#[test]
fn binding_is_not_visible_in_a_sibling() {
    // (\a: Base. a) a : the argument lies outside the abstraction's body.
    let expression = Expression::Application {
        function: Box::new(identity()),
        argument: Box::new(Expression::Variable("a".to_string())),
    };
    let mut context = Context::new();
    assert_eq!(
        infer(&mut context, &expression),
        Err(InferenceError::UndefinedVariable("a".to_string()))
    );
}

#[test]
fn inner_binding_shadows_and_outer_returns() {
    let mut context = Context::new();
    context.push("a".to_string(), base_to_base());
    assert_eq!(infer(&mut context, &identity()), Ok(base_to_base()));
    // Inside the body "a" was Base; outside it is the function type again.
    assert_eq!(infer(&mut context, &Expression::Variable("a".to_string())), Ok(base_to_base()));
    assert_eq!(context.pop(), Some(("a".to_string(), base_to_base())));
    assert_eq!(context.pop(), None);
}

#[test]
fn nested_abstractions_shadow_innermost_first() {
    // \a: Base -> Base. \a: Base. a
    let expression = Expression::Abstraction {
        parameter_name: "a".to_string(),
        parameter_type: base_to_base(),
        body: Box::new(identity()),
    };
    let mut context = Context::new();
    assert_eq!(infer(&mut context, &expression), Ok(Type::arrow(base_to_base(), base_to_base())));
}

#[test]
fn abstraction_body_sees_outer_bindings() {
    // \x: Base. f x   with f : Base -> Base in the context
    let expression = Expression::Abstraction {
        parameter_name: "x".to_string(),
        parameter_type: Type::Base,
        body: Box::new(Expression::Application {
            function: Box::new(Expression::Variable("f".to_string())),
            argument: Box::new(Expression::Variable("x".to_string())),
        }),
    };
    let mut context = Context::new();
    context.push("f".to_string(), base_to_base());
    assert_eq!(infer(&mut context, &expression), Ok(base_to_base()));
}

#[test]
fn higher_order_function_is_typed() {
    // \f: Base -> Base. \x: Base. f (f x)
    let call = |function: Expression, argument: Expression| Expression::Application {
        function: Box::new(function),
        argument: Box::new(argument),
    };
    let f = || Expression::Variable("f".to_string());
    let x = || Expression::Variable("x".to_string());
    let twice = Expression::Abstraction {
        parameter_name: "f".to_string(),
        parameter_type: base_to_base(),
        body: Box::new(Expression::Abstraction {
            parameter_name: "x".to_string(),
            parameter_type: Type::Base,
            body: Box::new(call(f(), call(f(), x()))),
        }),
    };
    let mut context = Context::new();
    assert_eq!(infer(&mut context, &twice), Ok(Type::arrow(base_to_base(), base_to_base())));
    // twice identity 3 : Base
    let applied = call(call(twice, identity()), Expression::IntLiteral(3));
    assert_eq!(infer(&mut context, &applied), Ok(Type::Base));
}

#[test]
fn argument_failure_is_reported_before_function_failure() {
    let expression = Expression::Application {
        function: Box::new(Expression::Variable("f".to_string())),
        argument: Box::new(Expression::Variable("x".to_string())),
    };
    let mut context = Context::new();
    assert_eq!(
        infer(&mut context, &expression),
        Err(InferenceError::UndefinedVariable("x".to_string()))
    );
}

#[test]
fn function_failure_is_reported_when_argument_is_typed() {
    let expression = Expression::Application {
        function: Box::new(Expression::Variable("f".to_string())),
        argument: Box::new(Expression::IntLiteral(1)),
    };
    let mut context = Context::new();
    assert_eq!(
        infer(&mut context, &expression),
        Err(InferenceError::UndefinedVariable("f".to_string()))
    );
}

#[test]
fn argument_failure_wins_over_not_a_function() {
    let expression = Expression::Application {
        function: Box::new(Expression::IntLiteral(1)),
        argument: Box::new(Expression::Variable("x".to_string())),
    };
    let mut context = Context::new();
    assert_eq!(
        infer(&mut context, &expression),
        Err(InferenceError::UndefinedVariable("x".to_string()))
    );
}

#[test]
fn mismatch_names_expected_then_actual() {
    // (\a: Base. a) (\b: Base. b)
    let expression = Expression::Application {
        function: Box::new(identity()),
        argument: Box::new(Expression::Abstraction {
            parameter_name: "b".to_string(),
            parameter_type: Type::Base,
            body: Box::new(Expression::Variable("b".to_string())),
        }),
    };
    let mut context = Context::new();
    assert_eq!(
        infer(&mut context, &expression),
        Err(InferenceError::TypeMismatch { expected: Type::Base, actual: base_to_base() })
    );
}

#[test]
fn function_argument_of_matching_arrow_type() {
    // (\f: Base -> Base. f) (\a: Base. a)
    let expression = Expression::Application {
        function: Box::new(Expression::Abstraction {
            parameter_name: "f".to_string(),
            parameter_type: base_to_base(),
            body: Box::new(Expression::Variable("f".to_string())),
        }),
        argument: Box::new(identity()),
    };
    let mut context = Context::new();
    assert_eq!(infer(&mut context, &expression), Ok(base_to_base()));
}

#[test]
fn apply_gives_the_body_type() {
    assert_eq!(apply(base_to_base(), Type::Base), Ok(Type::Base));
    assert_eq!(
        apply(Type::arrow(Type::Base, base_to_base()), Type::Base),
        Ok(base_to_base())
    );
    assert_eq!(apply(Type::arrow(base_to_base(), Type::Base), base_to_base()), Ok(Type::Base));
}

#[test]
fn apply_rejects_a_mismatch() {
    assert_eq!(
        apply(base_to_base(), base_to_base()),
        Err(InferenceError::TypeMismatch { expected: Type::Base, actual: base_to_base() })
    );
}

#[test]
fn apply_rejects_the_base_type() {
    assert_eq!(apply(Type::Base, Type::Base), Err(InferenceError::NotAFunction(Type::Base)));
    assert_eq!(apply(Type::Base, base_to_base()), Err(InferenceError::NotAFunction(Type::Base)));
}

#[test]
fn inference_is_repeatable() {
    let expression = Expression::Application {
        function: Box::new(identity()),
        argument: Box::new(Expression::IntLiteral(10)),
    };
    let mut context = Context::new();
    let first = infer(&mut context, &expression);
    let second = infer(&mut context, &expression);
    assert_eq!(first, second);
    assert_eq!(first, Ok(Type::Base));
}
