//! What can keep the probe from measuring.

use vstd::prelude::*;

verus! {

/// Why no elapsed time could be obtained. Either way the probe reports the
/// unknown state with the message held here.
#[derive(Debug)]
pub enum ProbeError {
    /// The network's answer could not be had: the request failed, was answered
    /// with a failure status, or the body was not the expected document.
    Fetch(String),
    /// The last-seen time in the network's answer could not be read.
    Timestamp(String),
}

impl ProbeError {
    /// The message of the failure.
    pub open spec fn text(self) -> Seq<char> {
        match self {
            ProbeError::Fetch(message) => message@,
            ProbeError::Timestamp(message) => message@,
        }
    }

    /// The message of the failure, as the status line repeats it.
    pub fn message(&self) -> (message: &str)
        ensures
            message@ == self.text(),
    {
        match self {
            ProbeError::Fetch(message) => message.as_str(),
            ProbeError::Timestamp(message) => message.as_str(),
        }
    }
}

} // verus!
