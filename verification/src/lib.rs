//! Core of a secret vault that keeps envelope-encrypted payloads in an object
//! store and provisions its own backing infrastructure stack.
//!
//! The crate performs no I/O. Every remote call is made by the embedding
//! application; the functions here decide which request comes next and what
//! an answer means.

pub mod cipher;
pub mod cloudformation;
pub mod codec;
pub mod errors;
pub mod layout;
pub mod model;
pub mod stack;
pub mod value;
pub mod vault;

pub use errors::VaultError;
pub use value::Value;
pub use vault::Vault;
