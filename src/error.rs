use vstd::prelude::*;

verus! {

/// What can go wrong in a driver operation.
#[derive(Debug, PartialEq, Eq)]
pub enum Error<E> {
    /// A command parameter did not fit in five bits (valid values are 0 to 31).
    InvalidValue,
    /// The bus reported a failure; its own error value is passed through untouched.
    WriteError(E),
    /// A bus address did not fit in seven bits (valid addresses are 0 to 127).
    InvalidAddress(u8),
}

impl<E> From<E> for Error<E> {
    fn from(value: E) -> (r: Self)
        ensures
            r == Error::WriteError(value),
    {
        Error::WriteError(value)
    }
}

impl<E> vstd::std_specs::convert::FromSpecImpl<E> for Error<E> {
    open spec fn obeys_from_spec() -> bool {
        true
    }

    open spec fn from_spec(v: E) -> Self {
        Error::WriteError(v)
    }
}

/// What an operation reports for the outcome of a bus write: success, or the bus's
/// own failure value wrapped as a write error.
pub open spec fn reported<E>(outcome: Result<(), E>) -> Result<(), Error<E>> {
    match outcome {
        Ok(()) => Ok(()),
        Err(e) => Err(Error::WriteError(e)),
    }
}

} // verus!
