//! A segmented, write-once, relocatable memory model for a prime-field virtual
//! machine, with the bookkeeping that drives a run of it: step budgets, scopes of
//! hint variables, dictionaries kept in memory, builtin stacks and relocation.
pub mod builtins;
pub mod cairo_runner;
pub mod dict_manager;
pub mod ecdsa;
pub mod felt;
pub mod hint_locals;
pub mod ids;
pub mod memory;
pub mod range_check;
pub mod relocatable;
pub mod run_context;
pub mod run_resource;
pub mod scope_manager;
pub mod utils;
pub mod vm_core;
