use vstd::prelude::*;

verus! {

/// Everything that can end an exchange early. Errors surface to the caller
/// unchanged: the core performs no retries and no wrapping.
#[derive(Clone, Debug, PartialEq, Eq)]
pub enum Error {
    /// Loading or saving the session configuration failed.
    Config(String),
    /// The connection to the remote service could not be established.
    Transport(String),
    /// A fragment of an already established stream carried an error.
    StreamFragment(String),
    /// Writing to the live output sink failed; text the user never saw must
    /// not be committed silently, so this is fatal for the exchange.
    IoSink(String),
}

impl Error {
    /// A human-readable description of the error, for display by the caller.
    pub fn describe(&self) -> (r: &str)
        ensures
            r@ == self.spec_describe(),
    {
        match self {
            Error::Config(m) => m.as_str(),
            Error::Transport(m) => m.as_str(),
            Error::StreamFragment(m) => m.as_str(),
            Error::IoSink(m) => m.as_str(),
        }
    }

    /// The characters of the description carried by any variant.
    pub open spec fn spec_describe(&self) -> Seq<char> {
        match self {
            Error::Config(m) => m@,
            Error::Transport(m) => m@,
            Error::StreamFragment(m) => m@,
            Error::IoSink(m) => m@,
        }
    }
}

} // verus!
