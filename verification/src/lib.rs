//! Build-time meta-compiler core for a compiler's code generator.
//!
//! The crate models a closed lattice of IR value types together with their
//! stable numeric encoding, a pool of structurally interned boolean
//! predicates, groups of named configuration settings with a byte-packed
//! layout, and a deterministic source-text emitter that renders the lattice
//! and the setting groups into generated source artifacts.

pub mod base_types;
pub mod errors;
pub mod gen_settings;
pub mod gen_types;
pub mod nan_canonicalization;
pub mod predicates;
pub mod settings;
pub mod srcgen;
pub mod types;
