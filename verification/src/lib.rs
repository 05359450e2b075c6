//! Generator for obligation/statement contract scaffolding.
//!
//! A caller describes the contract to generate (its name, feature flags, the
//! number of finalization entry points, and the field lists of its data
//! structs) and receives the complete source text as a single string.  The
//! text produced for a given configuration is pinned down, byte for byte, by
//! spec functions, so identical configurations always yield identical output.

pub mod codegen;
pub mod imports;
pub mod text;

pub use codegen::gen_contract;
pub use imports::gen_imports;
pub use imports::Symbol;
pub use codegen::gen_obligation;
pub use codegen::GenObligationOpts;
pub use codegen::RoleNoun;
