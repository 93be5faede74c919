//! Generation of the account-counting implementation and the surrounding
//! code for an accounts structure.
pub mod codegen;
pub mod count;
pub mod error;
pub mod generics;
pub mod render;
pub mod schema;

pub use codegen::generate;
pub use generics::generics;
