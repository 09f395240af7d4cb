use crate::codec::GeoidString;
use crate::errors::RoadNetworkError;
use crate::units::DistanceKm;
use vstd::prelude::*;

verus! {

/// The external cell-distance collaborator: a spatial-indexing system
/// that can compute the great-circle distance between two cell
/// identifiers, or reject the pair (unknown cell, cross-resolution
/// mismatch). Implementations declare in `distance_spec` and
/// `failure_spec` what they return; the network's contracts are stated
/// over those. The defaults stand for an oracle that rejects every pair
/// with an empty cause; a verified implementation overrides them with
/// what it actually returns, while an unverified host implementation may
/// leave them be, since nothing holds it to its contract anyway.
///
/// The collaborator is assumed symmetric and zero on equal cells, but the
/// network relies on neither assumption, so neither is demanded of
/// implementations.
pub trait DistanceOracle {
    /// The distance this oracle reports for an ordered pair of cell
    /// identifiers, in thousandths of a kilometre, or `None` when it
    /// rejects the pair.
    open spec fn distance_spec(&self, origin: Seq<char>, destination: Seq<char>) -> Option<u64> {
        None
    }

    /// The cause message this oracle reports when it rejects a pair.
    open spec fn failure_spec(&self, origin: Seq<char>, destination: Seq<char>) -> Seq<char> {
        Seq::empty()
    }

    /// Computes the distance in kilometres between two cells, or reports
    /// why the pair is rejected.
    fn distance_km(&self, origin: &GeoidString, destination: &GeoidString) -> (r: Result<
        DistanceKm,
        String,
    >)
        ensures
            match r {
                Ok(d) => self.distance_spec(origin@, destination@) == Some(d.thousandths),
                Err(cause) => {
                    &&& self.distance_spec(origin@, destination@) is None
                    &&& cause@ == self.failure_spec(origin@, destination@)
                },
            },
    ;
}

/// The distance-oracle adapter: a single call to the collaborator, with
/// its failure translated into the network's error taxonomy and the
/// underlying cause propagated verbatim. No caching, no retries, no
/// fallback distance.
pub fn distance_km<O: DistanceOracle>(
    oracle: &O,
    origin: &GeoidString,
    destination: &GeoidString,
) -> (r: Result<DistanceKm, RoadNetworkError>)
    ensures
        match r {
            Ok(d) => oracle.distance_spec(origin@, destination@) == Some(d.thousandths),
            Err(e) => {
                &&& oracle.distance_spec(origin@, destination@) is None
                &&& e matches RoadNetworkError::DistanceComputationFailed { cause } && cause@
                    == oracle.failure_spec(origin@, destination@)
            },
        },
{
    match oracle.distance_km(origin, destination) {
        Ok(d) => Ok(d),
        Err(cause) => Err(RoadNetworkError::DistanceComputationFailed { cause }),
    }
}

} // verus!
