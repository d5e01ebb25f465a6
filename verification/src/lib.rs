//! Configuration of the Neviraide editor plugin.
//!
//! The configuration is a tree of records with fixed default values. Publishing
//! it means storing one variable per leaf field in the host editor's global
//! namespace, under a dotted key, with the field's value as text.
//!
//! This crate holds everything about that which can be decided without the
//! host: the records and their defaults ([`config`]), the text of each value
//! ([`text`]), the order of the writes and what follows from the host's answer
//! to each ([`publish`]), and the errors ([`error`]). The caller owns the host:
//! it performs each write the library asks for and reports how it went.

pub mod config;
pub mod error;
pub mod publish;
pub mod text;
