//! Why generation can fail.
use vstd::prelude::*;

verus! {

#[derive(Clone, Copy, Debug, PartialEq, Eq, Structural)]
pub enum GenerateError {
    /// The structure has no fields.
    EmptySchema,
    /// syn did not read the default lifetime name as a lifetime.
    MalformedLifetime,
}

} // verus!
