//! A verified core of the Move model used by the Move prover: the environment of a set of
//! Move modules (source files, modules, functions, structs, enums, named constants, the
//! nodes of expressions and the diagnostics), identifiers and qualified identifiers, types
//! and their instantiation, source locations, verification scopes, the functions that the
//! prover knows by name, and decisions taken by the Boogie backend.

pub mod adding;
pub mod address;
pub mod boogie;
pub mod constants;
pub mod diag;
pub mod enums;
pub mod env;
pub mod equality;
pub mod files;
pub mod loc;
pub mod locals;
pub mod model;
pub mod names;
pub mod native_lists;
pub mod natives;
pub mod nodes;
pub mod order;
pub mod sorted_set;
pub mod structs;
pub mod stubs;
pub mod symbol;
pub mod text;
pub mod ty;
pub mod wellknown;
