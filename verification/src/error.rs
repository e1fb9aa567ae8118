//! The reasons for which an expression has no type.

use vstd::prelude::*;
use vstd::std_specs::cmp::PartialEqSpecImpl;
use crate::types::Type;

verus! {

/// Why inference failed. The first failure met ends the inference.
#[derive(Debug)]
pub enum InferenceError {
    /// A variable was referenced that the context does not bind.
    UndefinedVariable(String),
    /// The expression in function position has this type, which is no
    /// function type.
    NotAFunction(Type),
    /// The function takes a parameter of type `expected`, but the argument
    /// has type `actual`.
    TypeMismatch { expected: Type, actual: Type },
}

/// The mathematical model of an [`InferenceError`], with the variable's name
/// as a sequence of characters.
pub ghost enum InferenceErrorView {
    UndefinedVariable(Seq<char>),
    NotAFunction(Type),
    TypeMismatch { expected: Type, actual: Type },
}

impl View for InferenceError {
    type V = InferenceErrorView;

    open spec fn view(&self) -> InferenceErrorView {
        match self {
            InferenceError::UndefinedVariable(name) => InferenceErrorView::UndefinedVariable(name@),
            InferenceError::NotAFunction(actual) => InferenceErrorView::NotAFunction(*actual),
            InferenceError::TypeMismatch { expected, actual } => InferenceErrorView::TypeMismatch {
                expected: *expected,
                actual: *actual,
            },
        }
    }
}

impl Clone for InferenceError {
    /// A copy with the same view.
    fn clone(&self) -> (result: InferenceError)
        ensures
            result@ == self@,
    {
        match self {
            InferenceError::UndefinedVariable(name) => InferenceError::UndefinedVariable(
                name.clone(),
            ),
            InferenceError::NotAFunction(actual) => InferenceError::NotAFunction(actual.clone()),
            InferenceError::TypeMismatch { expected, actual } => InferenceError::TypeMismatch {
                expected: expected.clone(),
                actual: actual.clone(),
            },
        }
    }
}

impl PartialEq for InferenceError {
    /// Two errors are equal when they are of the same kind and carry the same
    /// name or types.
    fn eq(&self, other: &InferenceError) -> (result: bool) {
        match (self, other) {
            (InferenceError::UndefinedVariable(a), InferenceError::UndefinedVariable(b)) => *a == *b,
            (InferenceError::NotAFunction(a), InferenceError::NotAFunction(b)) => *a == *b,
            (
                InferenceError::TypeMismatch { expected: e1, actual: a1 },
                InferenceError::TypeMismatch { expected: e2, actual: a2 },
            ) => *e1 == *e2 && *a1 == *a2,
            _ => false,
        }
    }
}

impl Eq for InferenceError {

}

impl PartialEqSpecImpl for InferenceError {
    open spec fn obeys_eq_spec() -> bool {
        true
    }

    open spec fn eq_spec(&self, other: &InferenceError) -> bool {
        self@ == other@
    }
}

} // verus!
