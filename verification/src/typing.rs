//! The typing rules of the language, as a mathematical function.

use vstd::prelude::*;
use crate::error::InferenceErrorView;
use crate::expression::ExpressionView;
use crate::types::{arrow_type, Type};

verus! {

/// The result of typing an application from the results of typing its two
/// parts. The argument is looked at first, so that its failure wins over the
/// function's; then the function must have a function type whose parameter
/// type is the argument's type.
pub open spec fn apply_type(
    function: Result<Type, InferenceErrorView>,
    argument: Result<Type, InferenceErrorView>,
) -> Result<Type, InferenceErrorView> {
    match argument {
        Err(error) => Err(error),
        Ok(argument_type) => match function {
            Err(error) => Err(error),
            Ok(Type::Base) => Err(InferenceErrorView::NotAFunction(Type::Base)),
            Ok(Type::Arrow { parameter_type, body_type }) => if *parameter_type == argument_type {
                Ok(*body_type)
            } else {
                Err(
                    InferenceErrorView::TypeMismatch {
                        expected: *parameter_type,
                        actual: argument_type,
                    },
                )
            },
        },
    }
}

/// The type of `expression` where the variables in scope have the types that
/// `environment` gives them, or the first reason for which it has none.
///
/// There is one rule for each shape of expression:
/// - a literal has the base type;
/// - a variable has the type that the environment gives it, and is undefined
///   where the environment gives it none;
/// - an abstraction has the function type from its declared parameter type to
///   the type of its body, typed with the parameter bound to that type;
/// - an application has the type that [`apply_type`] makes of its two parts.
pub open spec fn type_of(environment: Map<Seq<char>, Type>, expression: ExpressionView) -> Result<
    Type,
    InferenceErrorView,
>
    decreases expression,
{
    match expression {
        ExpressionView::IntLiteral(_) => Ok(Type::Base),
        ExpressionView::Variable(name) => if environment.contains_key(name) {
            Ok(environment[name])
        } else {
            Err(InferenceErrorView::UndefinedVariable(name))
        },
        ExpressionView::Abstraction { parameter_name, parameter_type, body } => match type_of(
            environment.insert(parameter_name, parameter_type),
            *body,
        ) {
            Ok(body_type) => Ok(arrow_type(parameter_type, body_type)),
            Err(error) => Err(error),
        },
        ExpressionView::Application { function, argument } => apply_type(
            type_of(environment, *function),
            type_of(environment, *argument),
        ),
    }
}

/// The model of an inference result: the type as it is, the error by its view.
pub open spec fn result_view(result: Result<Type, crate::error::InferenceError>) -> Result<
    Type,
    InferenceErrorView,
> {
    match result {
        Ok(inferred) => Ok(inferred),
        Err(error) => Err(error@),
    }
}

} // verus!
