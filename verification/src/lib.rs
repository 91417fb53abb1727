//! The core of a compiler for a managed language: the stack frame of the
//! baseline compiler with its free list and its roots for the collector, the
//! instructions of the register machine and how they are rebuilt from
//! decoded code, the types of values, the context of a compilation with the
//! code that the compiler itself brings, and the encoding of x86-64
//! instructions.

pub mod baseline;
pub mod builder;
pub mod bytecode;
pub mod cpu;
pub mod frame;
pub mod free_slots;
pub mod masm;
pub mod mem;
pub mod prelude;
pub mod registry;
pub mod sym;
pub mod ty;
pub mod vm;
