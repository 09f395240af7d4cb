use crate::codec::{
    geoid_string_to_link_id, lemma_decode_characterizes, link_id_to_geoids, spec_decode,
    spec_link_id, GeoidString, LinkId,
};
use crate::errors::RoadNetworkError;
use crate::oracle::{self, DistanceOracle};
use crate::units::DistanceKm;
use vstd::prelude::*;

verus! {

/// The fixed average speed, in whole kilometres per hour, attributed to
/// every non-degenerate link.
pub const AVG_SPEED_KMPH: u64 = 40;

/// The spatial-indexing resolution a network is built with when none is
/// given.
pub const DEFAULT_RESOLUTION: usize = 15;

/// A single traversed road segment: a link id, its two endpoint cells,
/// and the link's distance and speed attributes.
#[derive(Clone, Debug, PartialEq)]
pub struct LinkTraversal {
    /// The canonical name of the link.
    pub link_id: LinkId,
    /// The cell the link starts at.
    pub start: GeoidString,
    /// The cell the link ends at.
    pub end: GeoidString,
    /// The length of the link.
    pub distance_km: DistanceKm,
    /// The speed attributed to the link, in whole kilometres per hour:
    /// zero on a self-link, the module average otherwise.
    pub speed_kmph: u64,
}

impl LinkTraversal {
    /// A traversal's id names its own endpoints: the consistency the
    /// network upholds on every construction path.
    pub open spec fn id_consistent(self) -> bool {
        self.link_id@ == spec_link_id(self.start@, self.end@)
    }
}

/// An agent's current location: the cell it occupies and the link it
/// currently stands on.
#[derive(Clone, Debug, PartialEq)]
pub struct EntityPosition {
    /// The link the agent currently occupies.
    pub link_id: LinkId,
    /// The cell the agent currently occupies.
    pub geoid: GeoidString,
}

/// A placeholder road network that substitutes a real road graph with a
/// straight-line distance model at a fixed average speed: every route is
/// at most one synthetic link. It holds only the spatial-indexing
/// resolution, fixed at construction; every operation is a pure function
/// of its inputs, so one instance can serve any number of callers.
///
/// Distances come from an external collaborator handed in as a
/// [`DistanceOracle`].
#[derive(Clone, Debug)]
pub struct HaversineRoadNetwork {
    /// The resolution cell identifiers are interpreted at: opaque context
    /// for the external collaborators, unvalidated here.
    pub sim_h3_resolution: usize,
}

impl HaversineRoadNetwork {
    /// A network at the given resolution, or at `DEFAULT_RESOLUTION` when
    /// none is given.
    pub fn new(sim_h3_resolution: Option<usize>) -> (r: HaversineRoadNetwork)
        ensures
            r.sim_h3_resolution == match sim_h3_resolution {
                Some(res) => res,
                None => DEFAULT_RESOLUTION,
            },
    {
        let res = match sim_h3_resolution {
            Some(res) => res,
            None => DEFAULT_RESOLUTION,
        };
        HaversineRoadNetwork { sim_h3_resolution: res }
    }

    /// The synthetic route between two positions: empty when they occupy
    /// the same cell, otherwise the single link from the origin cell to
    /// the destination cell, with the oracle's distance and the module's
    /// average speed. Fails exactly when the cells differ and the oracle
    /// rejects the pair, propagating the cause.
    pub fn route<O: DistanceOracle>(
        &self,
        oracle: &O,
        origin: EntityPosition,
        destination: EntityPosition,
    ) -> (r: Result<Vec<LinkTraversal>, RoadNetworkError>)
        ensures
            match r {
                Ok(links) => {
                    if origin.geoid@ == destination.geoid@ {
                        links@.len() == 0
                    } else {
                        &&& links@.len() == 1
                        &&& links@[0].link_id@ == spec_link_id(origin.geoid@, destination.geoid@)
                        &&& links@[0].start@ == origin.geoid@
                        &&& links@[0].end@ == destination.geoid@
                        &&& oracle.distance_spec(origin.geoid@, destination.geoid@) == Some(
                            links@[0].distance_km.thousandths,
                        )
                        &&& links@[0].speed_kmph == AVG_SPEED_KMPH
                        &&& links@[0].id_consistent()
                    }
                },
                Err(e) => {
                    &&& origin.geoid@ != destination.geoid@
                    &&& oracle.distance_spec(origin.geoid@, destination.geoid@) is None
                    &&& e matches RoadNetworkError::DistanceComputationFailed { cause } && cause@
                        == oracle.failure_spec(origin.geoid@, destination.geoid@)
                },
            },
    {
        if origin.geoid == destination.geoid {
            return Ok(Vec::new());
        }
        let link_id = geoid_string_to_link_id(&origin.geoid, &destination.geoid);
        let link_dist_km = match oracle::distance_km(oracle, &origin.geoid, &destination.geoid) {
            Err(e) => {
                return Err(e);
            },
            Ok(dist) => dist,
        };
        let link = LinkTraversal {
            link_id,
            start: origin.geoid,
            end: destination.geoid,
            distance_km: link_dist_km,
            speed_kmph: AVG_SPEED_KMPH,
        };
        let mut route: Vec<LinkTraversal> = Vec::new();
        route.push(link);
        Ok(route)
    }

    /// The oracle's distance between two cells: a direct pass-through to
    /// the distance-oracle adapter, failure semantics included.
    pub fn distance_by_geoid_km<O: DistanceOracle>(
        &self,
        oracle: &O,
        origin: GeoidString,
        destination: GeoidString,
    ) -> (r: Result<DistanceKm, RoadNetworkError>)
        ensures
            match r {
                Ok(d) => oracle.distance_spec(origin@, destination@) == Some(d.thousandths),
                Err(e) => {
                    &&& oracle.distance_spec(origin@, destination@) is None
                    &&& e matches RoadNetworkError::DistanceComputationFailed { cause } && cause@
                        == oracle.failure_spec(origin@, destination@)
                },
            },
    {
        oracle::distance_km(oracle, &origin, &destination)
    }

    /// The traversal a link id names: the id is decoded into its two
    /// cells and the oracle asked for their distance. The returned
    /// traversal carries the caller's id verbatim, not a re-encoding.
    /// Fails with `MalformedLinkId` exactly when the id decodes to
    /// nothing, and with `DistanceComputationFailed` exactly when it
    /// decodes but the oracle rejects the decoded pair.
    pub fn link_from_link_id<O: DistanceOracle>(&self, oracle: &O, link_id: LinkId) -> (r: Result<
        LinkTraversal,
        RoadNetworkError,
    >)
        ensures
            match r {
                Ok(link) => {
                    &&& link.link_id@ == link_id@
                    &&& spec_decode(link_id@) == Some((link.start@, link.end@))
                    &&& oracle.distance_spec(link.start@, link.end@) == Some(
                        link.distance_km.thousandths,
                    )
                    &&& link.speed_kmph == AVG_SPEED_KMPH
                    &&& link.id_consistent()
                },
                Err(e) => match e {
                    RoadNetworkError::MalformedLinkId { link_id: bad } => {
                        &&& spec_decode(link_id@) is None
                        &&& bad@ == link_id@
                    },
                    RoadNetworkError::DistanceComputationFailed { cause } => {
                        &&& spec_decode(link_id@) matches Some(parts)
                        &&& oracle.distance_spec(parts.0, parts.1) is None
                        &&& cause@ == oracle.failure_spec(parts.0, parts.1)
                    },
                },
            },
    {
        let (source, dest) = match link_id_to_geoids(&link_id) {
            Ok(parts) => parts,
            Err(e) => {
                return Err(e);
            },
        };
        let dist_km = match oracle::distance_km(oracle, &source, &dest) {
            Ok(d) => d,
            Err(e) => {
                return Err(e);
            },
        };
        proof {
            lemma_decode_characterizes(link_id@, source@, dest@);
        }
        Ok(
            LinkTraversal {
                link_id,
                start: source,
                end: dest,
                distance_km: dist_km,
                speed_kmph: AVG_SPEED_KMPH,
            },
        )
    }

    /// The degenerate self-link of a single cell: both endpoints are the
    /// cell, distance and speed are zero. Total; this is how the network
    /// represents "stationary at a cell" as a link.
    pub fn link_from_geoid(&self, geoid: GeoidString) -> (r: LinkTraversal)
        ensures
            r.link_id@ == spec_link_id(geoid@, geoid@),
            r.start@ == geoid@,
            r.end@ == geoid@,
            r.distance_km.thousandths == 0,
            r.speed_kmph == 0,
            r.id_consistent(),
    {
        let link_id = geoid_string_to_link_id(&geoid, &geoid);
        LinkTraversal {
            link_id,
            start: geoid.clone(),
            end: geoid,
            distance_km: DistanceKm { thousandths: 0 },
            speed_kmph: 0,
        }
    }

    /// The stationary position at a cell: the cell itself, on its own
    /// self-link, so the position's link id is always well formed and
    /// consistent with its cell.
    pub fn position_from_geoid(&self, geoid: GeoidString) -> (r: EntityPosition)
        ensures
            r.geoid@ == geoid@,
            r.link_id@ == spec_link_id(geoid@, geoid@),
    {
        let link = self.link_from_geoid(geoid.clone());
        EntityPosition { link_id: link.link_id, geoid }
    }

    /// Whether a cell lies within the network's geofence: always true,
    /// for every cell. This model has no geofence restriction; the
    /// operation exists for callers that may swap in a geofenced network
    /// variant.
    pub fn geoid_within_geofence(&self, _geoid: GeoidString) -> (r: bool)
        ensures
            r,
    {
        true
    }
}

} // verus!
