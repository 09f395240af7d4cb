use vstd::prelude::*;

verus! {

/// A non-negative distance in kilometres, held as an integer number of
/// thousandths of a kilometre (that is, metres), so that contracts can
/// speak of exact values.
#[derive(Clone, Copy, PartialEq, Eq, Structural, Debug)]
pub struct DistanceKm {
    /// Thousandths of a kilometre.
    pub thousandths: u64,
}

} // verus!
