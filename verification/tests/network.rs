use road_network::{
    DistanceKm, DistanceOracle, EntityPosition, HaversineRoadNetwork, RoadNetworkError,
    AVG_SPEED_KMPH, DEFAULT_RESOLUTION,
};

/// A distance oracle backed by a fixed table of ordered pairs; it rejects
/// every pair the table does not hold.
struct TableOracle {
    entries: Vec<(String, String, u64)>,
}

impl DistanceOracle for TableOracle {
    fn distance_km(&self, origin: &String, destination: &String) -> Result<DistanceKm, String> {
        for (a, b, thousandths) in &self.entries {
            if a == origin && b == destination {
                return Ok(DistanceKm { thousandths: *thousandths });
            }
        }
        Err(format!("no distance known from {} to {}", origin, destination))
    }
}

/// A distance oracle that rejects every pair.
struct FailingOracle;

impl DistanceOracle for FailingOracle {
    fn distance_km(&self, _origin: &String, _destination: &String) -> Result<DistanceKm, String> {
        Err("cell identifiers rejected".to_string())
    }
}

fn two_cell_oracle() -> TableOracle {
    TableOracle {
        entries: vec![
            ("a".to_string(), "b".to_string(), 12_500),
            ("b".to_string(), "a".to_string(), 12_500),
        ],
    }
}

#[test]
fn new_takes_given_resolution() {
    let net = HaversineRoadNetwork::new(Some(9));
    assert_eq!(net.sim_h3_resolution, 9);
}

#[test]
fn new_defaults_resolution() {
    let net = HaversineRoadNetwork::new(None);
    assert_eq!(net.sim_h3_resolution, DEFAULT_RESOLUTION);
    assert_eq!(net.sim_h3_resolution, 15);
}

#[test]
fn self_link_is_degenerate() {
    let net = HaversineRoadNetwork::new(None);
    let link = net.link_from_geoid("c".to_string());
    assert_eq!(link.link_id, "c-c");
    assert_eq!(link.start, "c");
    assert_eq!(link.end, "c");
    assert_eq!(link.distance_km.thousandths, 0);
    assert_eq!(link.speed_kmph, 0);
}

#[test]
fn position_carries_self_link() {
    let net = HaversineRoadNetwork::new(None);
    let position = net.position_from_geoid("a".to_string());
    assert_eq!(position.geoid, "a");
    assert_eq!(position.link_id, "a-a");
}

#[test]
fn route_between_equal_cells_is_empty() {
    let net = HaversineRoadNetwork::new(None);
    let oracle = FailingOracle;
    let p = net.position_from_geoid("a".to_string());
    let q = net.position_from_geoid("a".to_string());
    let links = net.route(&oracle, p, q).expect("degenerate route never fails");
    assert!(links.is_empty());
}

#[test]
fn route_between_equal_cells_ignores_link_ids() {
    // Only the cells decide degeneracy: positions standing on different
    // links but in the same cell still yield the empty route.
    let net = HaversineRoadNetwork::new(None);
    let oracle = FailingOracle;
    let p = EntityPosition { link_id: "a-b".to_string(), geoid: "c".to_string() };
    let q = EntityPosition { link_id: "b-a".to_string(), geoid: "c".to_string() };
    let links = net.route(&oracle, p, q).expect("degenerate route never fails");
    assert!(links.is_empty());
}

#[test]
fn route_between_distinct_cells_is_one_link() {
    let net = HaversineRoadNetwork::new(None);
    let oracle = two_cell_oracle();
    let p = net.position_from_geoid("a".to_string());
    let q = net.position_from_geoid("b".to_string());
    let links = net.route(&oracle, p, q).expect("the oracle knows the pair");
    assert_eq!(links.len(), 1);
    assert_eq!(links[0].link_id, "a-b");
    assert_eq!(links[0].start, "a");
    assert_eq!(links[0].end, "b");
    assert_eq!(links[0].distance_km.thousandths, 12_500);
    assert_eq!(links[0].speed_kmph, AVG_SPEED_KMPH);
    assert_eq!(links[0].speed_kmph, 40);
}

#[test]
fn distance_by_geoid_km_passes_through() {
    let net = HaversineRoadNetwork::new(None);
    let oracle = two_cell_oracle();
    let d = net
        .distance_by_geoid_km(&oracle, "a".to_string(), "b".to_string())
        .expect("the oracle knows the pair");
    assert_eq!(d.thousandths, 12_500);
}

#[test]
fn link_from_link_id_keeps_the_input_verbatim() {
    let net = HaversineRoadNetwork::new(None);
    let oracle = two_cell_oracle();
    let link = net
        .link_from_link_id(&oracle, "a-b".to_string())
        .expect("a well-formed id over known cells must succeed");
    assert_eq!(link.link_id, "a-b");
    assert_eq!(link.start, "a");
    assert_eq!(link.end, "b");
    assert_eq!(link.distance_km.thousandths, 12_500);
    assert_eq!(link.speed_kmph, AVG_SPEED_KMPH);
}

#[test]
fn link_from_link_id_rejects_malformed_ids() {
    let net = HaversineRoadNetwork::new(None);
    let oracle = two_cell_oracle();
    let r = net.link_from_link_id(&oracle, "abc".to_string());
    assert!(matches!(r, Err(RoadNetworkError::MalformedLinkId { link_id }) if link_id == "abc"));
    let r = net.link_from_link_id(&oracle, "a-b-c".to_string());
    assert!(matches!(r, Err(RoadNetworkError::MalformedLinkId { link_id }) if link_id == "a-b-c"));
}

#[test]
fn geofence_admits_every_cell() {
    let net = HaversineRoadNetwork::new(None);
    assert!(net.geoid_within_geofence("a".to_string()));
    assert!(net.geoid_within_geofence("".to_string()));
    assert!(net.geoid_within_geofence("never seen before".to_string()));
}

#[test]
fn oracle_failure_propagates_everywhere() {
    let net = HaversineRoadNetwork::new(None);
    let oracle = FailingOracle;

    let r = net.distance_by_geoid_km(&oracle, "a".to_string(), "b".to_string());
    assert!(matches!(
        r,
        Err(RoadNetworkError::DistanceComputationFailed { cause }) if cause == "cell identifiers rejected"
    ));

    let p = net.position_from_geoid("a".to_string());
    let q = net.position_from_geoid("b".to_string());
    let r = net.route(&oracle, p, q);
    assert!(matches!(
        r,
        Err(RoadNetworkError::DistanceComputationFailed { cause }) if cause == "cell identifiers rejected"
    ));

    let id = road_network::geoid_string_to_link_id(&"a".to_string(), &"b".to_string());
    let r = net.link_from_link_id(&oracle, id);
    assert!(matches!(
        r,
        Err(RoadNetworkError::DistanceComputationFailed { cause }) if cause == "cell identifiers rejected"
    ));
}
