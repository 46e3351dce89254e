//! Specialization of generic library functions of a low-level IR into concrete ones, with
//! their type signatures and their effect on simulated memory cells.
pub mod error;
pub mod ids;
pub mod mem_cell;
pub mod program;
pub mod lib_func;
pub mod mem;
