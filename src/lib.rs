//! Reading of BAI2 cash-management files: a byte-level record lexer, a field
//! typer, the numeric type-code taxonomy and a validating converter that
//! assembles the typed records into a file tree.

pub mod type_codes;
pub mod calendar;
pub mod data;
pub mod ast;
pub mod parse;
pub mod process;
