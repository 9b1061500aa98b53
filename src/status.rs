use vstd::prelude::*;

verus! {

/// Status of the live stream.
#[derive(Debug, Clone, Copy, PartialEq, Eq, Structural)]
pub enum Status {
    /// Stream is online.
    Online,
    /// Stream is offline.
    Offline,
    /// The status of the stream could not be determined.
    Unknown,
}

impl Status {
    /// Whether a download can be attempted: an offline stream cannot be
    /// downloaded, an unknown one may be.
    pub fn may_download(&self) -> (r: bool)
        ensures
            r == !(*self is Offline),
    {
        match self {
            Status::Offline => false,
            _ => true,
        }
    }
}

} // verus!
