//! A simplified, approximate road-network abstraction for agent-based
//! mobility simulation. It substitutes a real road graph with synthetic
//! one-hop links between spatial cells: every route is at most one link,
//! whose distance comes from an external cell-distance collaborator and
//! whose speed is a fixed module-wide average.
//!
//! The crate offers a bidirectional mapping between a pair of cell
//! identifiers and a canonical link-identifier string, construction of
//! one-hop routes and degenerate self-links, and a thin query surface
//! (distance, geofence membership) on top of those primitives.

mod codec;
mod errors;
mod network;
mod oracle;
mod units;

pub use codec::{
    cell_wf, decodes_to, geoid_string_to_link_id, lemma_decode_characterizes,
    lemma_link_id_injective, lemma_link_id_round_trip, link_id_to_geoids, spec_decodable,
    spec_decode, spec_link_id, GeoidString, LinkId,
};
pub use errors::RoadNetworkError;
pub use network::{
    EntityPosition, HaversineRoadNetwork, LinkTraversal, AVG_SPEED_KMPH, DEFAULT_RESOLUTION,
};
pub use oracle::DistanceOracle;
pub use units::DistanceKm;
