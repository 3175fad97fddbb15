//! The activation policy: given a current version and a queried version,
//! decides whether the queried version's rules are active.

use crate::spec_id::SpecId;
use vstd::prelude::*;

verus! {

/// Whether an identifier belongs to the Optimism side-chain band.
pub open spec fn is_optimism(id: SpecId) -> bool {
    id == SpecId::BEDROCK || id == SpecId::REGOLITH
}

/// The activation relation. Base rule: the queried version's rules are active
/// iff the current rank is at least the queried rank. Exception: a side-chain
/// current version never activates a mainline version published strictly
/// after the `MERGE` branch point, whatever the ranks say.
pub open spec fn active_spec(our: SpecId, other: SpecId) -> bool {
    if is_optimism(our) && !is_optimism(other) && other.rank() > SpecId::MERGE.rank() {
        false
    } else {
        our.rank() >= other.rank()
    }
}

impl SpecId {
    /// Base activation rule alone: rank comparison, with no side-chain
    /// exception.
    pub fn enabled(our: SpecId, other: SpecId) -> (r: bool)
        ensures
            r == (our.rank() >= other.rank()),
    {
        our.to_u8() >= other.to_u8()
    }
}

/// One immutable binding per published version: an implementing type carries
/// exactly one identifier, and rule-implementing code asks it whether the
/// rules of `spec_id` are active at that version.
pub trait Spec: Sized {
    /// The identifier this binding carries.
    spec fn spec_id_spec() -> SpecId;

    /// The identifier this binding carries.
    fn spec_id() -> (r: SpecId)
        ensures
            r == Self::spec_id_spec(),
    ;

    /// Whether the rules of `spec_id` are active at this binding's version:
    /// the base rank rule together with the side-chain exception.
    fn enabled(spec_id: SpecId) -> (r: bool)
        ensures
            r == active_spec(Self::spec_id_spec(), spec_id),
    {
        let our = Self::spec_id();
        let is_self_optimism = our == SpecId::BEDROCK || our == SpecId::REGOLITH;
        let input_not_optimism = spec_id != SpecId::BEDROCK && spec_id != SpecId::REGOLITH;
        let after_merge = spec_id.to_u8() > SpecId::MERGE.to_u8();
        if is_self_optimism && input_not_optimism && after_merge {
            false
        } else {
            our.to_u8() >= spec_id.to_u8()
        }
    }
}

pub struct FrontierSpec;

impl Spec for FrontierSpec {
    open spec fn spec_id_spec() -> SpecId {
        SpecId::FRONTIER
    }

    fn spec_id() -> (r: SpecId) {
        SpecId::FRONTIER
    }
}

pub struct HomesteadSpec;

impl Spec for HomesteadSpec {
    open spec fn spec_id_spec() -> SpecId {
        SpecId::HOMESTEAD
    }

    fn spec_id() -> (r: SpecId) {
        SpecId::HOMESTEAD
    }
}

pub struct TangerineSpec;

impl Spec for TangerineSpec {
    open spec fn spec_id_spec() -> SpecId {
        SpecId::TANGERINE
    }

    fn spec_id() -> (r: SpecId) {
        SpecId::TANGERINE
    }
}

pub struct SpuriousDragonSpec;

impl Spec for SpuriousDragonSpec {
    open spec fn spec_id_spec() -> SpecId {
        SpecId::SPURIOUS_DRAGON
    }

    fn spec_id() -> (r: SpecId) {
        SpecId::SPURIOUS_DRAGON
    }
}

pub struct ByzantiumSpec;

impl Spec for ByzantiumSpec {
    open spec fn spec_id_spec() -> SpecId {
        SpecId::BYZANTIUM
    }

    fn spec_id() -> (r: SpecId) {
        SpecId::BYZANTIUM
    }
}

pub struct PetersburgSpec;

impl Spec for PetersburgSpec {
    open spec fn spec_id_spec() -> SpecId {
        SpecId::PETERSBURG
    }

    fn spec_id() -> (r: SpecId) {
        SpecId::PETERSBURG
    }
}

pub struct IstanbulSpec;

impl Spec for IstanbulSpec {
    open spec fn spec_id_spec() -> SpecId {
        SpecId::ISTANBUL
    }

    fn spec_id() -> (r: SpecId) {
        SpecId::ISTANBUL
    }
}

pub struct BerlinSpec;

impl Spec for BerlinSpec {
    open spec fn spec_id_spec() -> SpecId {
        SpecId::BERLIN
    }

    fn spec_id() -> (r: SpecId) {
        SpecId::BERLIN
    }
}

pub struct LondonSpec;

impl Spec for LondonSpec {
    open spec fn spec_id_spec() -> SpecId {
        SpecId::LONDON
    }

    fn spec_id() -> (r: SpecId) {
        SpecId::LONDON
    }
}

pub struct MergeSpec;

impl Spec for MergeSpec {
    open spec fn spec_id_spec() -> SpecId {
        SpecId::MERGE
    }

    fn spec_id() -> (r: SpecId) {
        SpecId::MERGE
    }
}

pub struct ShanghaiSpec;

impl Spec for ShanghaiSpec {
    open spec fn spec_id_spec() -> SpecId {
        SpecId::SHANGHAI
    }

    fn spec_id() -> (r: SpecId) {
        SpecId::SHANGHAI
    }
}

pub struct CancunSpec;

impl Spec for CancunSpec {
    open spec fn spec_id_spec() -> SpecId {
        SpecId::CANCUN
    }

    fn spec_id() -> (r: SpecId) {
        SpecId::CANCUN
    }
}

pub struct LatestSpec;

impl Spec for LatestSpec {
    open spec fn spec_id_spec() -> SpecId {
        SpecId::LATEST
    }

    fn spec_id() -> (r: SpecId) {
        SpecId::LATEST
    }
}

pub struct BedrockSpec;

impl Spec for BedrockSpec {
    open spec fn spec_id_spec() -> SpecId {
        SpecId::BEDROCK
    }

    fn spec_id() -> (r: SpecId) {
        SpecId::BEDROCK
    }
}

pub struct RegolithSpec;

impl Spec for RegolithSpec {
    open spec fn spec_id_spec() -> SpecId {
        SpecId::REGOLITH
    }

    fn spec_id() -> (r: SpecId) {
        SpecId::REGOLITH
    }
}

/// Within one band the base rule alone decides: activation is exactly rank
/// comparison whenever current and queried version belong to the same
/// lineage.
pub proof fn lemma_same_band_base_rule(a: SpecId, b: SpecId)
    requires
        is_optimism(a) == is_optimism(b),
    ensures
        active_spec(a, b) == (a.rank() >= b.rank()),
{
}

/// Side-chain containment: a side-chain current version activates every
/// mainline version up to the `MERGE` branch point and none past it.
pub proof fn lemma_side_chain_exception(current: SpecId, queried: SpecId)
    requires
        is_optimism(current),
        !is_optimism(queried),
    ensures
        queried.rank() > SpecId::MERGE.rank() ==> !active_spec(current, queried),
        queried.rank() <= SpecId::MERGE.rank() ==> active_spec(current, queried),
{
}

/// The terminal identifier activates every mainline identifier. (A side-chain
/// identifier's rank lies in the high band past `LATEST`, so the side-chain
/// band is excluded.)
pub proof fn lemma_terminal_activates_mainline(queried: SpecId)
    requires
        !is_optimism(queried),
    ensures
        active_spec(SpecId::LATEST, queried),
{
}

} // verus!
