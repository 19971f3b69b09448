use vstd::prelude::*;

verus! {

/// Publication status of a map, as reported by the remote catalog.
#[derive(Clone, Copy, Debug, PartialEq, Eq, Structural)]
pub enum PublicationStatus {
    Graveyard,
    WorkInProgress,
    Pending,
    Ranked,
    Approved,
    Qualified,
    Loved,
}

impl PublicationStatus {
    /// A map whose content may still change upstream: a cached copy of it is
    /// never trusted.
    pub open spec fn is_mutable_spec(self) -> bool {
        match self {
            PublicationStatus::Graveyard => true,
            PublicationStatus::WorkInProgress => true,
            PublicationStatus::Pending => true,
            _ => false,
        }
    }

    pub fn is_mutable(&self) -> (r: bool)
        ensures
            r == self.is_mutable_spec(),
    {
        match self {
            PublicationStatus::Graveyard | PublicationStatus::WorkInProgress
            | PublicationStatus::Pending => true,
            _ => false,
        }
    }
}

} // verus!
