//! Generator of host-runtime binding sources from a record schema.
//!
//! A schema declares tables, structs, enums and unions.  For each declaration a run writes
//! one output unit of source text, in a file named after the declaration, and lists the
//! units in an index.
//!
//! - [`naming`] turns a declaration's camel-case name into the snake-case name of its file.
//! - [`schema`] reads what the generators need from the schema's own types.
//! - [`text`] puts lines and strings together and sorts them.
//! - [`unions`] generates the bindings of a union; [`union_laws`] states what holds of them.
//! - [`driver`] plans the output units of a run, finds the stale files and writes the index.
//! - [`runtime`] holds texts that the generated bindings ask for while they run.

pub mod driver;
pub mod naming;
pub mod runtime;
pub mod schema;
pub mod text;
pub mod union_laws;
pub mod unions;
