//! The types of the language: the base type of integers and function types.

use vstd::prelude::*;
use vstd::std_specs::cmp::PartialEqSpecImpl;

verus! {

/// A type of the language.
///
/// Types are finite trees and have no identity beyond their structure: in
/// specifications two types are equal exactly when they have the same shape.
#[derive(Debug)]
pub enum Type {
    /// The type of integers.
    Base,
    /// The type of functions from `parameter_type` to `body_type`.
    Arrow { parameter_type: Box<Type>, body_type: Box<Type> },
}

/// The function type from `parameter_type` to `body_type`.
pub open spec fn arrow_type(parameter_type: Type, body_type: Type) -> Type {
    Type::Arrow { parameter_type: Box::new(parameter_type), body_type: Box::new(body_type) }
}

impl Type {
    /// The function type from `parameter_type` to `body_type`.
    pub fn arrow(parameter_type: Type, body_type: Type) -> (result: Type)
        ensures
            result == arrow_type(parameter_type, body_type),
    {
        Type::Arrow { parameter_type: Box::new(parameter_type), body_type: Box::new(body_type) }
    }

    /// Decides structural equality by walking both trees together.
    fn same(&self, other: &Type) -> (result: bool)
        ensures
            result == (*self == *other),
        decreases self,
    {
        match (self, other) {
            (Type::Base, Type::Base) => true,
            (
                Type::Arrow { parameter_type: p1, body_type: b1 },
                Type::Arrow { parameter_type: p2, body_type: b2 },
            ) => p1.same(p2) && b1.same(b2),
            _ => false,
        }
    }
}

impl Clone for Type {
    /// A deep copy, equal to the original.
    fn clone(&self) -> (result: Type)
        ensures
            result == *self,
        decreases self,
    {
        match self {
            Type::Base => Type::Base,
            Type::Arrow { parameter_type, body_type } => Type::Arrow {
                parameter_type: Box::new((&**parameter_type).clone()),
                body_type: Box::new((&**body_type).clone()),
            },
        }
    }
}

impl PartialEq for Type {
    /// Structural equality.
    fn eq(&self, other: &Type) -> (result: bool) {
        self.same(other)
    }
}

impl Eq for Type {

}

impl PartialEqSpecImpl for Type {
    open spec fn obeys_eq_spec() -> bool {
        true
    }

    open spec fn eq_spec(&self, other: &Type) -> bool {
        *self == *other
    }
}

} // verus!
