//! Compiles the declared constraints of an account field into an ordered
//! validation-and-initialisation procedure.
//!
//! The procedure is described as data: each linearised constraint becomes one
//! step, and the runtime meaning of a step is given by the spec functions of
//! `runtime`, over which the laws of the compiler are proved.

pub mod model;
pub mod linearize;
pub mod procedure;
pub mod generate;
pub mod runtime;

pub use linearize::linearize;
pub use generate::{
    generate, generate_composite, generate_constraint_address, generate_constraint_associated_token,
    generate_constraint_close, generate_constraint_executable, generate_constraint_has_one,
    generate_constraint_init, generate_constraint_literal, generate_constraint_mut,
    generate_constraint_owner, generate_constraint_raw, generate_constraint_rent_exempt,
    generate_constraint_seeds, generate_constraint_signer, generate_constraint_state,
    generate_constraint_zeroed, generate_create_account, generate_custom_error,
};
