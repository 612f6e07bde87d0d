//! An embeddable, resource-bounded interpreter for a small dynamic scripting
//! language: a heap of handles, a value model, an exception taxonomy that maps
//! onto a host's exception hierarchy, native builtins, and a tree-walking
//! evaluator held to instruction and memory budgets.


pub mod builtins;
pub mod exceptions;
pub mod text;
pub mod heap;
pub mod object;
pub mod resource;
pub mod operators;
pub mod ast;
pub mod run;
pub mod host;
pub mod prepare;
pub mod boundary;
pub mod semantics;
