use vstd::prelude::*;

verus! {

/// The single failure kind the coordinator deals in: a channel could not be
/// prepared, could not send, could not receive, or no channel is left to try.
/// It carries a human-readable diagnostic string.
#[derive(Debug)]
pub enum Error {
    ChannelMessenger(String),
}

impl Error {
    /// The diagnostic string carried by the error, as a sequence of characters.
    pub open spec fn message_view(&self) -> Seq<char> {
        match self {
            Error::ChannelMessenger(m) => m@,
        }
    }

    /// Exec access to the diagnostic, for callers that report it.
    pub fn message(&self) -> (r: &str)
        ensures
            r@ == self.message_view(),
    {
        match self {
            Error::ChannelMessenger(m) => m.as_str(),
        }
    }
}

} // verus!
