//! Generation of a structural rewrite mechanism for tagged unions: from the
//! declaration of a union to a dispatcher and a transformer interface with
//! identity defaults, together with the contract that the two keep at run time.

pub mod generate;
pub mod id_allocator;
pub mod naming;
pub mod render;
pub mod runtime;
pub mod schema;
pub mod target;
