//! What holds of the typing rules and of structural equality, for all inputs.

use vstd::prelude::*;
use vstd::std_specs::cmp::PartialEqSpec;
use crate::error::InferenceErrorView;
use crate::expression::ExpressionView;
use crate::types::{arrow_type, Type};
use crate::typing::type_of;

verus! {

/// The typing judgement, stated rule by rule without reference to errors:
/// `expression` has type `claimed` where the variables in scope have the
/// types that `environment` gives them.
pub open spec fn has_type(
    environment: Map<Seq<char>, Type>,
    expression: ExpressionView,
    claimed: Type,
) -> bool
    decreases expression,
{
    match expression {
        ExpressionView::IntLiteral(_) => claimed == Type::Base,
        ExpressionView::Variable(name) => environment.contains_key(name) && environment[name]
            == claimed,
        ExpressionView::Abstraction { parameter_name, parameter_type, body } => {
            &&& claimed matches Type::Arrow { parameter_type: declared, body_type }
            &&& *declared == parameter_type
            &&& has_type(environment.insert(parameter_name, parameter_type), *body, *body_type)
        },
        ExpressionView::Application { function, argument } => exists|argument_type: Type|
            has_type(environment, *function, #[trigger] arrow_type(argument_type, claimed))
                && has_type(environment, *argument, argument_type),
    }
}

/// An integer literal has the base type, whatever its value and whatever is
/// in scope.
pub proof fn lemma_literal_has_base_type(environment: Map<Seq<char>, Type>, value: i64)
    ensures
        type_of(environment, ExpressionView::IntLiteral(value)) == Ok::<Type, InferenceErrorView>(
            Type::Base,
        ),
{
}

/// A variable that is not in scope is undefined, and the error names it; one
/// that is in scope has the type it is bound to.
pub proof fn lemma_variable_type(environment: Map<Seq<char>, Type>, name: Seq<char>)
    ensures
        !environment.contains_key(name) ==> type_of(environment, ExpressionView::Variable(name))
            == Err::<Type, InferenceErrorView>(InferenceErrorView::UndefinedVariable(name)),
        environment.contains_key(name) ==> type_of(environment, ExpressionView::Variable(name))
            == Ok::<Type, InferenceErrorView>(environment[name]),
{
}

/// Two function types are equal exactly when their parameter types are equal
/// and their body types are equal, and no function type equals the base type.
/// The `==` of executable code decides this same equality.
pub proof fn lemma_arrow_equality(
    first_parameter: Type,
    first_body: Type,
    second_parameter: Type,
    second_body: Type,
)
    ensures
        ({
            let first = arrow_type(first_parameter, first_body);
            let second = arrow_type(second_parameter, second_body);
            let same_parts = first_parameter == second_parameter && first_body == second_body;
            &&& first == second <==> same_parts
            &&& first.eq_spec(&second) <==> same_parts
            &&& first != Type::Base
            &&& !first.eq_spec(&Type::Base)
            &&& Type::obeys_eq_spec()
        }),
{
}

/// The typing function finds the type `claimed` exactly when the typing
/// judgement holds of it. So it fails exactly on the expressions that have no
/// type at all.
pub proof fn lemma_type_of_decides_has_type(
    environment: Map<Seq<char>, Type>,
    expression: ExpressionView,
    claimed: Type,
)
    ensures
        type_of(environment, expression) == Ok::<Type, InferenceErrorView>(claimed) <==> has_type(
            environment,
            expression,
            claimed,
        ),
    decreases expression,
{
    match expression {
        ExpressionView::IntLiteral(_) => {},
        ExpressionView::Variable(_) => {},
        ExpressionView::Abstraction { parameter_name, parameter_type, body } => {
            if let Type::Arrow { parameter_type: declared, body_type } = claimed {
                lemma_type_of_decides_has_type(
                    environment.insert(parameter_name, parameter_type),
                    *body,
                    *body_type,
                );
            }
        },
        ExpressionView::Application { function, argument } => {
            if has_type(environment, expression, claimed) {
                let argument_type = choose|argument_type: Type|
                    has_type(environment, *function, #[trigger] arrow_type(argument_type, claimed))
                        && has_type(environment, *argument, argument_type);
                lemma_type_of_decides_has_type(environment, *argument, argument_type);
                lemma_type_of_decides_has_type(
                    environment,
                    *function,
                    arrow_type(argument_type, claimed),
                );
            }
            if type_of(environment, expression) == Ok::<Type, InferenceErrorView>(claimed) {
                let argument_type = type_of(environment, *argument)->Ok_0;
                let function_type = type_of(environment, *function)->Ok_0;
                lemma_type_of_decides_has_type(environment, *argument, argument_type);
                lemma_type_of_decides_has_type(environment, *function, function_type);
                assert(function_type == arrow_type(argument_type, claimed));
            }
        },
    }
}

/// An expression has at most one type.
pub proof fn lemma_type_is_unique(
    environment: Map<Seq<char>, Type>,
    expression: ExpressionView,
    first: Type,
    second: Type,
)
    requires
        has_type(environment, expression, first),
        has_type(environment, expression, second),
    ensures
        first == second,
{
    lemma_type_of_decides_has_type(environment, expression, first);
    lemma_type_of_decides_has_type(environment, expression, second);
}

/// Whether the variable `name` occurs in `expression` outside the body of
/// every abstraction that binds it.
pub open spec fn occurs_free(name: Seq<char>, expression: ExpressionView) -> bool
    decreases expression,
{
    match expression {
        ExpressionView::IntLiteral(_) => false,
        ExpressionView::Variable(referenced) => referenced == name,
        ExpressionView::Abstraction { parameter_name, parameter_type, body } => parameter_name
            != name && occurs_free(name, *body),
        ExpressionView::Application { function, argument } => occurs_free(name, *function)
            || occurs_free(name, *argument),
    }
}

/// Whether two environments bind `name` alike: both to the same type, or
/// neither at all.
pub open spec fn agree_on(
    first: Map<Seq<char>, Type>,
    second: Map<Seq<char>, Type>,
    name: Seq<char>,
) -> bool {
    first.contains_key(name) == second.contains_key(name) && (first.contains_key(name)
        ==> first[name] == second[name])
}

/// Bindings are lexically scoped: the result of typing an expression, its
/// type or its error, depends on the environment only through the variables
/// that occur free in it. What an abstraction binds for its body, and what
/// the environment says of names that the expression never refers to, makes
/// no difference.
pub proof fn lemma_type_of_reads_free_variables_only(
    first: Map<Seq<char>, Type>,
    second: Map<Seq<char>, Type>,
    expression: ExpressionView,
)
    requires
        forall|name: Seq<char>| #[trigger]
            occurs_free(name, expression) ==> agree_on(first, second, name),
    ensures
        type_of(first, expression) == type_of(second, expression),
    decreases expression,
{
    match expression {
        ExpressionView::IntLiteral(_) => {},
        ExpressionView::Variable(referenced) => {
            assert(occurs_free(referenced, expression));
        },
        ExpressionView::Abstraction { parameter_name, parameter_type, body } => {
            let first_inner = first.insert(parameter_name, parameter_type);
            let second_inner = second.insert(parameter_name, parameter_type);
            assert forall|name: Seq<char>| #[trigger] occurs_free(name, *body) implies agree_on(
                first_inner,
                second_inner,
                name,
            ) by {
                if name != parameter_name {
                    assert(occurs_free(name, expression));
                }
            }
            lemma_type_of_reads_free_variables_only(first_inner, second_inner, *body);
        },
        ExpressionView::Application { function, argument } => {
            assert forall|name: Seq<char>| #[trigger] occurs_free(name, *function) implies agree_on(
                first,
                second,
                name,
            ) by {
                assert(occurs_free(name, expression));
            }
            assert forall|name: Seq<char>| #[trigger] occurs_free(name, *argument) implies agree_on(
                first,
                second,
                name,
            ) by {
                assert(occurs_free(name, expression));
            }
            lemma_type_of_reads_free_variables_only(first, second, *function);
            lemma_type_of_reads_free_variables_only(first, second, *argument);
        },
    }
}

} // verus!
