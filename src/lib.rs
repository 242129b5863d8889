//! Elaboration of a data-description language from its surface syntax into a
//! fully explicit core syntax, and quotation of core terms back into surface
//! syntax for display.

pub mod source;
pub mod name;
pub mod core_syntax;
pub mod semantics;
pub mod surface;
pub mod diagnostics;
pub mod integer;
pub mod literal;
pub mod elaboration;
pub mod elaborate;
pub mod core_to_surface;
pub mod laws;
