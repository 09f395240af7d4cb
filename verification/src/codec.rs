use crate::errors::RoadNetworkError;
use vstd::prelude::*;
use vstd::string::StrSliceExecFns;
use vstd::string::StringExecFns;

verus! {

/// A cell identifier: an opaque token naming a discretized geographic
/// area at a fixed indexing resolution, produced by an external
/// spatial-indexing system.
pub type GeoidString = String;

/// The canonical name of a synthetic one-hop link: the origin cell
/// identifier, the separator `-`, and the destination cell identifier.
pub type LinkId = String;

/// Whether a cell identifier is well formed for the link-id encoding:
/// non-empty and free of the separator character. A cell identifier that
/// itself contains the separator breaks round-tripping; that is a format
/// constraint of the encoding, not something it repairs.
pub open spec fn cell_wf(cell: Seq<char>) -> bool {
    &&& cell.len() > 0
    &&& !cell.contains('-')
}

/// The canonical link id of an ordered pair of cell identifiers.
pub open spec fn spec_link_id(origin: Seq<char>, destination: Seq<char>) -> Seq<char> {
    origin + seq!['-'] + destination
}

/// Whether `link_id` is the encoding of the well-formed pair
/// `(origin, destination)`.
pub open spec fn decodes_to(link_id: Seq<char>, origin: Seq<char>, destination: Seq<char>) -> bool {
    &&& cell_wf(origin)
    &&& cell_wf(destination)
    &&& link_id == spec_link_id(origin, destination)
}

/// Whether `link_id` is the encoding of some well-formed pair.
pub open spec fn spec_decodable(link_id: Seq<char>) -> bool {
    exists|origin: Seq<char>, destination: Seq<char>| decodes_to(link_id, origin, destination)
}

/// The pair of cell identifiers a link id decodes to, when it decodes at
/// all. Well defined because the encoding is injective on well-formed
/// pairs (`lemma_link_id_injective`).
pub open spec fn spec_decode(link_id: Seq<char>) -> Option<(Seq<char>, Seq<char>)> {
    if spec_decodable(link_id) {
        Some(
            choose|origin: Seq<char>, destination: Seq<char>|
                decodes_to(link_id, origin, destination),
        )
    } else {
        None
    }
}

/// The separator stands at position `at` of `link_id`, an interior
/// position, and nowhere else.
pub open spec fn sep_exactly_at(link_id: Seq<char>, at: int) -> bool {
    &&& 0 < at
    &&& at + 1 < link_id.len()
    &&& link_id[at] == '-'
    &&& forall|j: int| 0 <= j < link_id.len() && j != at ==> link_id[j] != '-'
}

/// In the encoding of a well-formed pair, the separator occurs exactly
/// once: at the boundary between the two cell identifiers.
pub proof fn lemma_sep_position(link_id: Seq<char>, origin: Seq<char>, destination: Seq<char>)
    requires
        decodes_to(link_id, origin, destination),
    ensures
        sep_exactly_at(link_id, origin.len() as int),
{
    let at = origin.len() as int;
    assert(link_id[at] == '-');
    assert forall|j: int| 0 <= j < link_id.len() && j != at implies link_id[j] != '-' by {
        if j < at {
            assert(link_id[j] == origin[j]);
            if origin[j] == '-' {
                assert(origin.contains('-'));
            }
        } else {
            assert(link_id[j] == destination[j - at - 1]);
            if destination[j - at - 1] == '-' {
                assert(destination.contains('-'));
            }
        }
    }
}

/// The encoding is injective on well-formed pairs: two pairs with the
/// same link id are the same pair.
pub proof fn lemma_link_id_injective(
    origin1: Seq<char>,
    destination1: Seq<char>,
    origin2: Seq<char>,
    destination2: Seq<char>,
)
    requires
        cell_wf(origin1),
        cell_wf(destination1),
        cell_wf(origin2),
        cell_wf(destination2),
        spec_link_id(origin1, destination1) == spec_link_id(origin2, destination2),
    ensures
        origin1 == origin2,
        destination1 == destination2,
{
    let s = spec_link_id(origin1, destination1);
    lemma_sep_position(s, origin1, destination1);
    lemma_sep_position(s, origin2, destination2);
    let at1 = origin1.len() as int;
    let at2 = origin2.len() as int;
    assert(at1 == at2);
    assert(origin1 =~= origin2) by {
        assert forall|j: int| 0 <= j < at1 implies origin1[j] == origin2[j] by {
            assert(origin1[j] == s[j]);
            assert(origin2[j] == s[j]);
        }
    }
    assert(destination1 =~= destination2) by {
        assert forall|j: int| 0 <= j < destination1.len() implies destination1[j]
            == destination2[j] by {
            assert(destination1[j] == s[at1 + 1 + j]);
            assert(destination2[j] == s[at1 + 1 + j]);
        }
    }
}

/// A link id that is the encoding of a well-formed pair decodes to
/// exactly that pair.
proof fn lemma_spec_decode_exact(link_id: Seq<char>, origin: Seq<char>, destination: Seq<char>)
    requires
        decodes_to(link_id, origin, destination),
    ensures
        spec_decode(link_id) == Some((origin, destination)),
{
    assert(spec_decodable(link_id));
    let (a, b) = choose|a: Seq<char>, b: Seq<char>| decodes_to(link_id, a, b);
    assert(decodes_to(link_id, a, b));
    lemma_link_id_injective(a, b, origin, destination);
}

/// What a successful decoding means: the pair is well formed and the
/// link id is exactly its encoding.
pub proof fn lemma_decode_characterizes(
    link_id: Seq<char>,
    origin: Seq<char>,
    destination: Seq<char>,
)
    requires
        spec_decode(link_id) == Some((origin, destination)),
    ensures
        decodes_to(link_id, origin, destination),
{
    let (a, b) = choose|a: Seq<char>, b: Seq<char>| decodes_to(link_id, a, b);
    assert(decodes_to(link_id, a, b));
}

/// Round trip: for every well-formed pair of cell identifiers, decoding
/// the encoding of the pair gives the pair back.
pub proof fn lemma_link_id_round_trip(origin: Seq<char>, destination: Seq<char>)
    requires
        cell_wf(origin),
        cell_wf(destination),
    ensures
        spec_decode(spec_link_id(origin, destination)) == Some((origin, destination)),
{
    lemma_spec_decode_exact(spec_link_id(origin, destination), origin, destination);
}

/// Encodes an ordered pair of cell identifiers as a link id. Total: it
/// does not check the cells against `cell_wf`; an ill-formed cell yields
/// an id that decodes to nothing or to a different pair.
pub fn geoid_string_to_link_id(origin: &GeoidString, destination: &GeoidString) -> (r: LinkId)
    ensures
        r@ == spec_link_id(origin@, destination@),
{
    let mut r = origin.as_str().to_owned();
    r.append("-");
    r.append(destination.as_str());
    proof {
        reveal_strlit("-");
        assert(r@ =~= spec_link_id(origin@, destination@));
    }
    r
}

/// Decodes a link id into its pair of cell identifiers. Succeeds exactly
/// when the id is the encoding of a well-formed pair, that is, when the
/// separator occurs exactly once and both sides of it are non-empty;
/// otherwise reports `MalformedLinkId` carrying the offending string.
pub fn link_id_to_geoids(link_id: &LinkId) -> (r: Result<
    (GeoidString, GeoidString),
    RoadNetworkError,
>)
    ensures
        match r {
            Ok(parts) => spec_decode(link_id@) == Some((parts.0@, parts.1@)),
            Err(e) => {
                &&& spec_decode(link_id@) is None
                &&& e matches RoadNetworkError::MalformedLinkId { link_id: bad } && bad@
                    == link_id@
            },
        },
{
    let s: &str = link_id.as_str();
    let len: usize = s.unicode_len();
    let mut first: Option<usize> = None;
    let mut second: Option<usize> = None;
    let mut i: usize = 0;
    while i < len
        invariant
            len == s@.len(),
            s@ == link_id@,
            i <= len,
            match first {
                None => forall|j: int| 0 <= j < i ==> s@[j] != '-',
                Some(f) => {
                    &&& f < i
                    &&& s@[f as int] == '-'
                    &&& forall|j: int| 0 <= j < f ==> s@[j] != '-'
                },
            },
            match second {
                None => first matches Some(f) ==> forall|j: int| f < j < i ==> s@[j] != '-',
                Some(g) => {
                    &&& first matches Some(f) && f < g
                    &&& g < i
                    &&& s@[g as int] == '-'
                },
            },
        decreases len - i,
    {
        if s.get_char(i) == '-' {
            if first.is_none() {
                first = Some(i);
            } else if second.is_none() {
                second = Some(i);
            }
        }
        i += 1;
    }
    if first.is_some() && second.is_none() {
        let f = first.unwrap();
        if 0 < f && f + 1 < len {
            let origin = s.substring_char(0, f).to_owned();
            let destination = s.substring_char(f + 1, len).to_owned();
            proof {
                assert(origin@ =~= s@.subrange(0, f as int));
                assert(destination@ =~= s@.subrange(f + 1, len as int));
                assert(!origin@.contains('-')) by {
                    if origin@.contains('-') {
                        let j = choose|j: int|
                            0 <= j < origin@.len() && origin@[j] == '-';
                        assert(s@[j] == '-');
                    }
                }
                assert(!destination@.contains('-')) by {
                    if destination@.contains('-') {
                        let j = choose|j: int|
                            0 <= j < destination@.len() && destination@[j] == '-';
                        assert(s@[f + 1 + j] == '-');
                    }
                }
                assert(s@ =~= spec_link_id(origin@, destination@));
                lemma_spec_decode_exact(s@, origin@, destination@);
            }
            Ok((origin, destination))
        } else {
            proof {
                lemma_scan_rejects(s@, f as int);
            }
            Err(RoadNetworkError::MalformedLinkId { link_id: link_id.clone() })
        }
    } else {
        proof {
            if second is Some {
                lemma_scan_rejects(s@, first->0 as int);
            } else {
                if spec_decodable(s@) {
                    let (a, b) = choose|a: Seq<char>, b: Seq<char>| decodes_to(s@, a, b);
                    lemma_sep_position(s@, a, b);
                }
            }
        }
        Err(RoadNetworkError::MalformedLinkId { link_id: link_id.clone() })
    }
}

/// A string whose separator at `f` stands at the edge, or beside a second
/// separator, decodes to nothing: a decodable string has its one
/// separator at an interior position.
proof fn lemma_scan_rejects(s: Seq<char>, f: int)
    requires
        0 <= f < s.len(),
        s[f] == '-',
        !(0 < f && f + 1 < s.len() && (forall|j: int| 0 <= j < s.len() && j != f ==> s[j] != '-')),
    ensures
        !spec_decodable(s),
{
    if spec_decodable(s) {
        let (a, b) = choose|a: Seq<char>, b: Seq<char>| decodes_to(s, a, b);
        lemma_sep_position(s, a, b);
        let at = a.len() as int;
        assert(f == at);
    }
}

} // verus!
