use vstd::prelude::*;

verus! {

/// Failures that the runtime reports as values.
#[derive(Clone, Copy, Debug, PartialEq, Eq, Structural)]
pub enum Error {
    /// The operating system could not allocate a native resource.
    ResourceExhausted,
    /// A bounded wait ran out before the condition came about.
    Timeout,
}

impl Error {
    /// A short description of the failure.
    pub fn message(&self) -> (r: &'static str)
        ensures
            *self == Error::ResourceExhausted ==> r@ == "out of native resources"@,
            *self == Error::Timeout ==> r@ == "wait timed out"@,
    {
        match self {
            Error::ResourceExhausted => "out of native resources",
            Error::Timeout => "wait timed out",
        }
    }
}

} // verus!
