//! Verified core of safe bindings for libopenmpt: decoding of raw pattern
//! cell data, the key tables of the native string-keyed interfaces, and the
//! translation of native sentinel values into host values.
//!
//! The foreign calls themselves live outside this library; what is here is
//! everything that decides or computes around them.

pub mod info;
pub mod mod_command;
pub mod module;
