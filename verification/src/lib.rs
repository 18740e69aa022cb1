//! A symbolic type model for TypeScript declarations, a resolver for named
//! type references, and a shallow expression-type inference that together
//! answer one question: does this expression statement leave a Promise
//! unhandled?
//!
//! The library works on plain syntax values ([`syntax`]); a parser's tree is
//! copied into them by the caller. The declarations of a file become the
//! symbols of its scope ([`analyzer`], [`symbol`]), ambient declaration
//! files become the symbols that every file sees, and the check
//! ([`linter`]) asks the tables through one surface ([`server`]).

pub mod analyzer;
pub mod linter;
pub mod sequences;
pub mod server;
pub mod symbol;
pub mod syntax;
pub mod text;
pub mod type_info;
pub mod visitor;
