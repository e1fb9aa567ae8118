//! The inference engine: one pass over the expression, one rule per shape.

use vstd::prelude::*;
use crate::context::Context;
use crate::error::InferenceError;
use crate::expression::Expression;
use crate::types::Type;
use crate::typing::{apply_type, result_view, type_of};

verus! {

/// Types an application whose function has type `function_type` and whose
/// argument has type `argument_type`: the function's body type where the
/// function takes what the argument is, else the reason why not.
pub fn apply(function_type: Type, argument_type: Type) -> (result: Result<Type, InferenceError>)
    ensures
        result_view(result) == apply_type(Ok(function_type), Ok(argument_type)),
{
    match function_type {
        Type::Arrow { parameter_type, body_type } => {
            if argument_type == *parameter_type {
                Ok(*body_type)
            } else {
                Err(
                    InferenceError::TypeMismatch {
                        expected: *parameter_type,
                        actual: argument_type,
                    },
                )
            }
        },
        Type::Base => Err(InferenceError::NotAFunction(Type::Base)),
    }
}

/// Infers the type of `expression` under `context`.
///
/// The result is what the typing rules give for the context as it is on
/// entry. While the body of an abstraction is typed the context holds the
/// parameter's binding; on return, with a type or with an error, the context
/// holds exactly the bindings that it held on entry.
pub fn infer(context: &mut Context, expression: &Expression) -> (result: Result<
    Type,
    InferenceError,
>)
    ensures
        result_view(result) == type_of(old(context)@, expression@),
        final(context).bindings() == old(context).bindings(),
    decreases expression,
{
    match expression {
        Expression::IntLiteral(_) => Ok(Type::Base),
        Expression::Variable(name) => match context.get(name) {
            Some(bound) => Ok(bound.clone()),
            None => Err(InferenceError::UndefinedVariable(name.clone())),
        },
        Expression::Abstraction { parameter_name, parameter_type, body } => {
            context.push(parameter_name.clone(), parameter_type.clone());
            let body_result = infer(context, body);
            context.pop();
            match body_result {
                Ok(body_type) => Ok(Type::arrow(parameter_type.clone(), body_type)),
                Err(error) => Err(error),
            }
        },
        Expression::Application { function, argument } => {
            let argument_type = match infer(context, argument) {
                Ok(inferred) => inferred,
                Err(error) => { return Err(error); },
            };
            let function_type = match infer(context, function) {
                Ok(inferred) => inferred,
                Err(error) => { return Err(error); },
            };
            apply(function_type, argument_type)
        },
    }
}

} // verus!
