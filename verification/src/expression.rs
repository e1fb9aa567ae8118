//! The expressions of the language and their mathematical model.

use vstd::prelude::*;
use crate::types::Type;

verus! {

/// An expression of the language.
///
/// An expression is a finite tree: each child belongs to exactly one parent.
#[derive(Debug)]
pub enum Expression {
    /// An integer literal.
    IntLiteral(i64),
    /// A reference to a variable, resolved through the typing context.
    Variable(String),
    /// A function whose parameter `parameter_name` has the declared type
    /// `parameter_type` and is in scope in `body` only.
    Abstraction { parameter_name: String, parameter_type: Type, body: Box<Expression> },
    /// The call of `function` on `argument`.
    Application { function: Box<Expression>, argument: Box<Expression> },
}

/// The mathematical model of an [`Expression`]: the same tree, with every
/// name as a sequence of characters.
pub ghost enum ExpressionView {
    IntLiteral(i64),
    Variable(Seq<char>),
    Abstraction { parameter_name: Seq<char>, parameter_type: Type, body: Box<ExpressionView> },
    Application { function: Box<ExpressionView>, argument: Box<ExpressionView> },
}

impl View for Expression {
    type V = ExpressionView;

    open spec fn view(&self) -> ExpressionView {
        self.model()
    }
}

impl Clone for Expression {
    /// A deep copy with the same model.
    fn clone(&self) -> (result: Expression)
        ensures
            result@ == self@,
        decreases self,
    {
        match self {
            Expression::IntLiteral(value) => Expression::IntLiteral(*value),
            Expression::Variable(name) => Expression::Variable(name.clone()),
            Expression::Abstraction { parameter_name, parameter_type, body } => {
                Expression::Abstraction {
                    parameter_name: parameter_name.clone(),
                    parameter_type: parameter_type.clone(),
                    body: Box::new((&**body).clone()),
                }
            },
            Expression::Application { function, argument } => Expression::Application {
                function: Box::new((&**function).clone()),
                argument: Box::new((&**argument).clone()),
            },
        }
    }
}

impl Expression {
    /// The model of this expression, by recursion on the tree.
    pub open spec fn model(&self) -> ExpressionView
        decreases self,
    {
        match self {
            Expression::IntLiteral(value) => ExpressionView::IntLiteral(*value),
            Expression::Variable(name) => ExpressionView::Variable(name@),
            Expression::Abstraction { parameter_name, parameter_type, body } => {
                ExpressionView::Abstraction {
                    parameter_name: parameter_name@,
                    parameter_type: *parameter_type,
                    body: Box::new(body.model()),
                }
            },
            Expression::Application { function, argument } => ExpressionView::Application {
                function: Box::new(function.model()),
                argument: Box::new(argument.model()),
            },
        }
    }

    /// The literal `value`.
    pub fn int_literal(value: i64) -> (result: Expression)
        ensures
            result@ == ExpressionView::IntLiteral(value),
    {
        Expression::IntLiteral(value)
    }

    /// A reference to the variable `name`.
    pub fn variable(name: &str) -> (result: Expression)
        ensures
            result@ == ExpressionView::Variable(name@),
    {
        Expression::Variable(name.to_owned())
    }

    /// The function that binds `parameter_name`, of type `parameter_type`, in
    /// `body`.
    pub fn abstraction(parameter_name: &str, parameter_type: Type, body: Expression) -> (result:
        Expression)
        ensures
            result@ == (ExpressionView::Abstraction {
                parameter_name: parameter_name@,
                parameter_type,
                body: Box::new(body@),
            }),
    {
        Expression::Abstraction {
            parameter_name: parameter_name.to_owned(),
            parameter_type,
            body: Box::new(body),
        }
    }

    /// The call of `function` on `argument`.
    pub fn application(function: Expression, argument: Expression) -> (result: Expression)
        ensures
            result@ == (ExpressionView::Application {
                function: Box::new(function@),
                argument: Box::new(argument@),
            }),
    {
        Expression::Application { function: Box::new(function), argument: Box::new(argument) }
    }
}

} // verus!
