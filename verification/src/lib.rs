//! Core of a static-analysis engine for a JavaScript/TypeScript syntax tree:
//! an immutable arena with a parent index, ancestor traversal that can skip
//! syntactically transparent wrappers, a contextual-typing classifier for
//! function return-type annotations, per-node rule dispatch with an
//! append-only diagnostic sink, and a generic enter/leave tree visitor.

pub mod span;
pub mod text;
pub mod ast;
pub mod arena;
pub mod walker;
pub mod resolver;
pub mod config;
pub mod diagnostics;
pub mod return_checker;
pub mod return_type;
pub mod html_link;
pub mod dispatch;
pub mod visitor;

pub use span::Span;
pub use ast::{AstKind, AstNode, NodeId};
