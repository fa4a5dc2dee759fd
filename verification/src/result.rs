use vstd::prelude::*;

verus! {

/// The ways in which reading a registry's answer can fail.
#[derive(Debug, Clone, Copy, PartialEq, Eq, Structural)]
pub enum Error {
    /// The answer is not a JSON document of the wire schema, or a member that a record of its
    /// class must carry is absent.
    Decode,
    /// The record is well formed, but its object class is not `domain`.
    NotDomain,
    /// The record has no network block, or the block has no name.
    MissingNetwork,
    /// The network block names no country, or a code that is not a known alpha-2 code.
    UnknownCountry,
    /// The network block states no IP version, or one of its two addresses is absent or is not
    /// a literal of that version.
    MalformedAddress,
}

/// What a result holds, with the value of a success replaced by its view.
pub open spec fn outcome<T: DeepView>(result: Result<T, Error>) -> Result<T::V, Error> {
    match result {
        Ok(value) => Ok(value.deep_view()),
        Err(error) => Err(error),
    }
}

} // verus!
