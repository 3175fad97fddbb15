//! The registry of hardfork identifiers: their total order (via a numeric
//! rank), the numeric round-trip encoding, and name lookup.

use vstd::prelude::*;
use vstd::string::StrSliceExecFns;

verus! {

/// Identifier of one protocol rule-set upgrade ("hardfork"), in activation
/// order. Mainline upgrades occupy the low numeric band; the Optimism
/// side-chain upgrades (`BEDROCK`, `REGOLITH`) occupy a disjoint high band.
/// `LATEST` is the mainline terminal value: "always the newest known version".
#[allow(non_camel_case_types)]
#[derive(Debug, Copy, Clone, Eq, PartialEq, Hash, PartialOrd, Ord, Structural)]
pub enum SpecId {
    FRONTIER,  // activation block 0
    FRONTIER_THAWING,  // activation block 200000
    HOMESTEAD,  // activation block 1150000
    DAO_FORK,  // activation block 1920000
    TANGERINE,  // activation block 2463000
    SPURIOUS_DRAGON,  // activation block 2675000
    BYZANTIUM,  // activation block 4370000
    CONSTANTINOPLE,  // activation block 7280000, superseded by PETERSBURG
    PETERSBURG,  // activation block 7280000
    ISTANBUL,  // activation block 9069000
    MUIR_GLACIER,  // activation block 9200000
    BERLIN,  // activation block 12244000
    LONDON,  // activation block 12965000
    ARROW_GLACIER,  // activation block 13773000
    GRAY_GLACIER,  // activation block 15050000
    MERGE,  // activation by difficulty
    SHANGHAI,
    CANCUN,
    LATEST,
    BEDROCK,
    REGOLITH,
}

/// The published decoding table: the identifier whose rank is `raw`, or
/// `None` when `raw` is not the encoding of any published identifier.
pub open spec fn decode_spec(raw: u8) -> Option<SpecId> {
    if raw == 0 {
        Some(SpecId::FRONTIER)
    } else if raw == 1 {
        Some(SpecId::FRONTIER_THAWING)
    } else if raw == 2 {
        Some(SpecId::HOMESTEAD)
    } else if raw == 3 {
        Some(SpecId::DAO_FORK)
    } else if raw == 4 {
        Some(SpecId::TANGERINE)
    } else if raw == 5 {
        Some(SpecId::SPURIOUS_DRAGON)
    } else if raw == 6 {
        Some(SpecId::BYZANTIUM)
    } else if raw == 7 {
        Some(SpecId::CONSTANTINOPLE)
    } else if raw == 8 {
        Some(SpecId::PETERSBURG)
    } else if raw == 9 {
        Some(SpecId::ISTANBUL)
    } else if raw == 10 {
        Some(SpecId::MUIR_GLACIER)
    } else if raw == 11 {
        Some(SpecId::BERLIN)
    } else if raw == 12 {
        Some(SpecId::LONDON)
    } else if raw == 13 {
        Some(SpecId::ARROW_GLACIER)
    } else if raw == 14 {
        Some(SpecId::GRAY_GLACIER)
    } else if raw == 15 {
        Some(SpecId::MERGE)
    } else if raw == 16 {
        Some(SpecId::SHANGHAI)
    } else if raw == 17 {
        Some(SpecId::CANCUN)
    } else if raw == 18 {
        Some(SpecId::LATEST)
    } else if raw == 128 {
        Some(SpecId::BEDROCK)
    } else if raw == 129 {
        Some(SpecId::REGOLITH)
    } else {
        None
    }
}

impl SpecId {
    /// The numeric rank of an identifier: its wire encoding, and the
    /// chronological activation order within its band. Ranks are unique and
    /// stable once published.
    pub open spec fn rank(self) -> u8 {
        match self {
            SpecId::FRONTIER => 0,
            SpecId::FRONTIER_THAWING => 1,
            SpecId::HOMESTEAD => 2,
            SpecId::DAO_FORK => 3,
            SpecId::TANGERINE => 4,
            SpecId::SPURIOUS_DRAGON => 5,
            SpecId::BYZANTIUM => 6,
            SpecId::CONSTANTINOPLE => 7,
            SpecId::PETERSBURG => 8,
            SpecId::ISTANBUL => 9,
            SpecId::MUIR_GLACIER => 10,
            SpecId::BERLIN => 11,
            SpecId::LONDON => 12,
            SpecId::ARROW_GLACIER => 13,
            SpecId::GRAY_GLACIER => 14,
            SpecId::MERGE => 15,
            SpecId::SHANGHAI => 16,
            SpecId::CANCUN => 17,
            SpecId::LATEST => 18,
            SpecId::BEDROCK => 128,
            SpecId::REGOLITH => 129,
        }
    }

    /// The numeric encoding of this identifier.
    pub fn to_u8(self) -> (r: u8)
        ensures
            r == self.rank(),
    {
        match self {
            SpecId::FRONTIER => 0,
            SpecId::FRONTIER_THAWING => 1,
            SpecId::HOMESTEAD => 2,
            SpecId::DAO_FORK => 3,
            SpecId::TANGERINE => 4,
            SpecId::SPURIOUS_DRAGON => 5,
            SpecId::BYZANTIUM => 6,
            SpecId::CONSTANTINOPLE => 7,
            SpecId::PETERSBURG => 8,
            SpecId::ISTANBUL => 9,
            SpecId::MUIR_GLACIER => 10,
            SpecId::BERLIN => 11,
            SpecId::LONDON => 12,
            SpecId::ARROW_GLACIER => 13,
            SpecId::GRAY_GLACIER => 14,
            SpecId::MERGE => 15,
            SpecId::SHANGHAI => 16,
            SpecId::CANCUN => 17,
            SpecId::LATEST => 18,
            SpecId::BEDROCK => 128,
            SpecId::REGOLITH => 129,
        }
    }

    /// Decodes a raw numeric value (as it arrives from configuration or wire
    /// data) back to its identifier; `None` for any value outside the
    /// published set.
    pub fn try_from_u8(spec_id: u8) -> (r: Option<SpecId>)
        ensures
            r == decode_spec(spec_id),
            r matches Some(id) ==> id.rank() == spec_id,
            r is None ==> forall|id: SpecId| #[trigger] id.rank() != spec_id,
    {
        let r = if spec_id == 0 {
            Some(SpecId::FRONTIER)
        } else if spec_id == 1 {
            Some(SpecId::FRONTIER_THAWING)
        } else if spec_id == 2 {
            Some(SpecId::HOMESTEAD)
        } else if spec_id == 3 {
            Some(SpecId::DAO_FORK)
        } else if spec_id == 4 {
            Some(SpecId::TANGERINE)
        } else if spec_id == 5 {
            Some(SpecId::SPURIOUS_DRAGON)
        } else if spec_id == 6 {
            Some(SpecId::BYZANTIUM)
        } else if spec_id == 7 {
            Some(SpecId::CONSTANTINOPLE)
        } else if spec_id == 8 {
            Some(SpecId::PETERSBURG)
        } else if spec_id == 9 {
            Some(SpecId::ISTANBUL)
        } else if spec_id == 10 {
            Some(SpecId::MUIR_GLACIER)
        } else if spec_id == 11 {
            Some(SpecId::BERLIN)
        } else if spec_id == 12 {
            Some(SpecId::LONDON)
        } else if spec_id == 13 {
            Some(SpecId::ARROW_GLACIER)
        } else if spec_id == 14 {
            Some(SpecId::GRAY_GLACIER)
        } else if spec_id == 15 {
            Some(SpecId::MERGE)
        } else if spec_id == 16 {
            Some(SpecId::SHANGHAI)
        } else if spec_id == 17 {
            Some(SpecId::CANCUN)
        } else if spec_id == 18 {
            Some(SpecId::LATEST)
        } else if spec_id == 128 {
            Some(SpecId::BEDROCK)
        } else if spec_id == 129 {
            Some(SpecId::REGOLITH)
        } else {
            None
        };
        proof {
            if r is None {
                lemma_unpublished_rank_decodes_to_none(spec_id);
            }
        }
        r
    }
}

/// The name table: the identifier a known human-readable upgrade name stands
/// for. Any other name resolves to the terminal `LATEST` — a deliberate
/// permissive default, not an error. Exact match only.
pub open spec fn parse_spec(name: Seq<char>) -> SpecId {
    if name == "Frontier"@ {
        SpecId::FRONTIER
    } else if name == "Homestead"@ {
        SpecId::HOMESTEAD
    } else if name == "Tangerine"@ {
        SpecId::TANGERINE
    } else if name == "Spurious"@ {
        SpecId::SPURIOUS_DRAGON
    } else if name == "Byzantium"@ {
        SpecId::BYZANTIUM
    } else if name == "Constantinople"@ {
        SpecId::CONSTANTINOPLE
    } else if name == "Petersburg"@ {
        SpecId::PETERSBURG
    } else if name == "Istanbul"@ {
        SpecId::ISTANBUL
    } else if name == "MuirGlacier"@ {
        SpecId::MUIR_GLACIER
    } else if name == "Berlin"@ {
        SpecId::BERLIN
    } else if name == "London"@ {
        SpecId::LONDON
    } else if name == "Merge"@ {
        SpecId::MERGE
    } else if name == "Shanghai"@ {
        SpecId::SHANGHAI
    } else if name == "Cancun"@ {
        SpecId::CANCUN
    } else if name == "Bedrock"@ {
        SpecId::BEDROCK
    } else if name == "Regolith"@ {
        SpecId::REGOLITH
    } else {
        SpecId::LATEST
    }
}

/// Exact character-by-character comparison of two strings.
fn str_eq(a: &str, b: &str) -> (r: bool)
    ensures
        r == (a@ == b@),
{
    let a_len = a.unicode_len();
    let b_len = b.unicode_len();
    if a_len != b_len {
        return false;
    }
    let mut i: usize = 0;
    while i < a_len
        invariant
            0 <= i <= a_len,
            a_len == a@.len(),
            b_len == b@.len(),
            a_len == b_len,
            forall|j: int| 0 <= j < i ==> a@[j] == b@[j],
        decreases a_len - i,
    {
        if a.get_char(i) != b.get_char(i) {
            return false;
        }
        i += 1;
    }
    proof {
        assert(a@ =~= b@);
    }
    true
}

impl From<&str> for SpecId {
    /// Maps a known upgrade name to its identifier; an unrecognized name
    /// resolves to `LATEST` rather than failing.
    fn from(name: &str) -> (r: SpecId)
        ensures
            r == parse_spec(name@),
    {
        if str_eq(name, "Frontier") {
            SpecId::FRONTIER
        } else if str_eq(name, "Homestead") {
            SpecId::HOMESTEAD
        } else if str_eq(name, "Tangerine") {
            SpecId::TANGERINE
        } else if str_eq(name, "Spurious") {
            SpecId::SPURIOUS_DRAGON
        } else if str_eq(name, "Byzantium") {
            SpecId::BYZANTIUM
        } else if str_eq(name, "Constantinople") {
            SpecId::CONSTANTINOPLE
        } else if str_eq(name, "Petersburg") {
            SpecId::PETERSBURG
        } else if str_eq(name, "Istanbul") {
            SpecId::ISTANBUL
        } else if str_eq(name, "MuirGlacier") {
            SpecId::MUIR_GLACIER
        } else if str_eq(name, "Berlin") {
            SpecId::BERLIN
        } else if str_eq(name, "London") {
            SpecId::LONDON
        } else if str_eq(name, "Merge") {
            SpecId::MERGE
        } else if str_eq(name, "Shanghai") {
            SpecId::SHANGHAI
        } else if str_eq(name, "Cancun") {
            SpecId::CANCUN
        } else if str_eq(name, "Bedrock") {
            SpecId::BEDROCK
        } else if str_eq(name, "Regolith") {
            SpecId::REGOLITH
        } else {
            SpecId::LATEST
        }
    }
}

impl vstd::std_specs::convert::FromSpecImpl<&str> for SpecId {
    open spec fn obeys_from_spec() -> bool {
        true
    }

    open spec fn from_spec(name: &str) -> SpecId {
        parse_spec(name@)
    }
}

/// Ranks are unique: two identifiers with the same rank are the same
/// identifier.
pub proof fn lemma_rank_injective(a: SpecId, b: SpecId)
    ensures
        a.rank() == b.rank() ==> a == b,
{
}

/// Round trip: decoding the encoding of any published identifier yields that
/// identifier again.
pub proof fn lemma_decode_rank_roundtrip(id: SpecId)
    ensures
        decode_spec(id.rank()) == Some(id),
{
}

/// A raw value that is the encoding of no published identifier decodes to
/// `None`, and conversely.
pub proof fn lemma_unpublished_rank_decodes_to_none(raw: u8)
    ensures
        decode_spec(raw) is None <==> (forall|id: SpecId| #[trigger] id.rank() != raw),
{
    if decode_spec(raw) is None {
        assert forall|id: SpecId| #[trigger] id.rank() != raw by {
            lemma_decode_rank_roundtrip(id);
        }
    } else {
        let id = decode_spec(raw)->0;
        assert(id.rank() == raw);
    }
}

/// Ranks form a strict total order: `<` on ranks is irreflexive and
/// transitive, `<=` is antisymmetric (by rank uniqueness), and any two
/// identifiers are comparable.
pub proof fn lemma_rank_strict_total_order(a: SpecId, b: SpecId, c: SpecId)
    ensures
        !(a.rank() < a.rank()),
        a.rank() < b.rank() && b.rank() < c.rank() ==> a.rank() < c.rank(),
        a.rank() <= b.rank() && b.rank() <= a.rank() ==> a == b,
        a.rank() < b.rank() || b.rank() < a.rank() || a == b,
{
    lemma_rank_injective(a, b);
}

} // verus!
