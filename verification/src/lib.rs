//! The expression-language front end of a small regex-building DSL: the
//! abstract syntax tree, its closure/free-variable representation, a generic
//! explicit-stack tree traversal, and the evaluation and pretty-printing
//! contracts that consume the tree.

pub mod ast;
pub mod doc;
pub mod eval;
pub mod free_vars;
pub mod pretty_print;
pub mod visitor;

pub use ast::BOp;
pub use ast::Expr;
pub use ast::ExprKind;
pub use ast::Lambda;
pub use ast::RepRange;
pub use ast::Span;
pub use ast::Statement;
pub use ast::StatementKind;
pub use ast::UOp;
pub use doc::Doc;
pub use eval::ErrorKind;
pub use eval::InternalError;
pub use eval::Value;
pub use free_vars::free_var_set;
pub use visitor::visit_expr;
pub use visitor::visit_stmt;
pub use visitor::Visitor;
