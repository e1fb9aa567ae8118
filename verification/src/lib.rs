//! Type inference for a small, explicitly annotated functional language.
//!
//! The language has integer literals, variables, abstractions whose parameter
//! carries its type, and applications. [`infer`] derives the type of an
//! expression under a typing [`Context`], or says why the expression has none.
//! Every executable function is verified against the mathematical typing
//! function [`type_of`].

pub mod context;
pub mod error;
pub mod expression;
pub mod inference;
pub mod laws;
pub mod types;
pub mod typing;

pub use context::Context;
pub use error::{InferenceError, InferenceErrorView};
pub use expression::{Expression, ExpressionView};
pub use inference::{apply, infer};
pub use types::{arrow_type, Type};
pub use typing::{apply_type, result_view, type_of};
