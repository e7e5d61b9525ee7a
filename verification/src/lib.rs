//! Parser and exact printer for a small pattern language that describes
//! fragments of MIR. Source text is cut into tokens, a production of the
//! grammar turns a run of tokens into a lossless syntax tree, and printing
//! a tree gives back exactly the tokens it was built from.

pub mod accept;
pub mod error;
pub mod expr;
pub mod grammar;
pub mod lex;
pub mod parse;
pub mod stmt;
pub mod token;
pub mod tree;
pub mod unit;
