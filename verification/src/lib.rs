//! Object model and namespace core of an AML (ACPI Machine Language)
//! interpreter.
//!
//! Firmware describes hardware topology and power policy as AML bytecode.
//! A kernel-side interpreter decodes that bytecode into namespace objects
//! and runs control methods against them. This crate holds the verified
//! heart of such an interpreter:
//!
//! * [`value::AmlValue`] — the tagged union able to represent every kind of
//!   ACPI namespace object, with strict, fallible narrowing accessors;
//! * [`namespace::Namespace`] — the path-keyed store of named objects;
//! * [`context::AmlExecutionContext`] and [`value::Method`] — the contract
//!   for invoking a control method and harvesting its result, with the
//!   guarantee that transient declarations never leak out of an invocation;
//! * [`path::get_namespace_string`] — the pure name-resolution grammar that
//!   composes scope paths.
//!
//! The bytecode decoder itself is an external collaborator: it is reached
//! through the [`context::TermListInterpreter`] trait and drives execution
//! only through the context's own operations.

pub mod accessor;
pub mod context;
pub mod namespace;
pub mod path;
pub mod value;
