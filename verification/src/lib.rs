//! A minimal scripting engine: a parse tree is turned into a flat list of
//! statements, and that list is run against a variable environment.
pub mod depth;
pub mod eval;
pub mod ir;
pub mod laws;
pub mod run;
pub mod text;
pub mod tree;
pub mod value;
