use vstd::prelude::*;

verus! {

/// The failures the road network can report. Every failure is
/// recoverable by the caller; none is fatal to the network itself.
#[derive(Clone, Debug, PartialEq)]
pub enum RoadNetworkError {
    /// The given string does not name a link: it is not two non-empty,
    /// separator-free cell identifiers joined by one separator. Carries
    /// the offending string for diagnostics.
    MalformedLinkId { link_id: String },
    /// The external distance collaborator rejected a pair of cell
    /// identifiers. Carries the collaborator's cause message verbatim,
    /// never swallowed or defaulted.
    DistanceComputationFailed { cause: String },
}

} // verus!
