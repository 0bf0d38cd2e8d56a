pub mod address;
pub mod derivation;
pub mod errors;
pub mod initialize_launch;
pub mod laws;
