//! A minimal interpreter for JVM class files: a verified binary decoder for
//! the class-file format, an instruction decoder for the bytecode, and a
//! stack-machine interpreter for the integer subset of the instruction set.

pub mod class_file;
pub mod descriptor;
pub mod disasm;
pub mod frame;
pub mod instructions;
pub mod parser;
pub mod stream;
pub mod reader;
pub mod runtime;
