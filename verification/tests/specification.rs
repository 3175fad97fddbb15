use revm_primitives::activation::{
    BedrockSpec, FrontierSpec, LatestSpec, RegolithSpec, Spec,
};
use revm_primitives::spec_id::SpecId;

const ALL_IDS: [SpecId; 21] = [
    SpecId::FRONTIER,
    SpecId::FRONTIER_THAWING,
    SpecId::HOMESTEAD,
    SpecId::DAO_FORK,
    SpecId::TANGERINE,
    SpecId::SPURIOUS_DRAGON,
    SpecId::BYZANTIUM,
    SpecId::CONSTANTINOPLE,
    SpecId::PETERSBURG,
    SpecId::ISTANBUL,
    SpecId::MUIR_GLACIER,
    SpecId::BERLIN,
    SpecId::LONDON,
    SpecId::ARROW_GLACIER,
    SpecId::GRAY_GLACIER,
    SpecId::MERGE,
    SpecId::SHANGHAI,
    SpecId::CANCUN,
    SpecId::LATEST,
    SpecId::BEDROCK,
    SpecId::REGOLITH,
];

#[test]
fn test_bedrock_post_merge_hardforks() {
    assert!(BedrockSpec::enabled(SpecId::MERGE));
    assert!(!BedrockSpec::enabled(SpecId::SHANGHAI));
    assert!(!BedrockSpec::enabled(SpecId::CANCUN));
    assert!(!BedrockSpec::enabled(SpecId::LATEST));
    assert!(BedrockSpec::enabled(SpecId::BEDROCK));
    assert!(!BedrockSpec::enabled(SpecId::REGOLITH));
}

#[test]
fn test_regolith_post_merge_hardforks() {
    assert!(RegolithSpec::enabled(SpecId::MERGE));
    assert!(!RegolithSpec::enabled(SpecId::SHANGHAI));
    assert!(!RegolithSpec::enabled(SpecId::CANCUN));
    assert!(!RegolithSpec::enabled(SpecId::LATEST));
    assert!(RegolithSpec::enabled(SpecId::BEDROCK));
    assert!(RegolithSpec::enabled(SpecId::REGOLITH));
}

#[test]
fn base_rule_is_rank_comparison() {
    for a in ALL_IDS {
        for b in ALL_IDS {
            assert_eq!(SpecId::enabled(a, b), a.to_u8() >= b.to_u8());
        }
    }
    assert!(SpecId::enabled(SpecId::LONDON, SpecId::BERLIN));
    assert!(SpecId::enabled(SpecId::LONDON, SpecId::LONDON));
    assert!(!SpecId::enabled(SpecId::BERLIN, SpecId::LONDON));
}

#[test]
fn numeric_encoding_is_stable() {
    assert_eq!(SpecId::FRONTIER.to_u8(), 0);
    assert_eq!(SpecId::CONSTANTINOPLE.to_u8(), 7);
    assert_eq!(SpecId::PETERSBURG.to_u8(), 8);
    assert_eq!(SpecId::MERGE.to_u8(), 15);
    assert_eq!(SpecId::LATEST.to_u8(), 18);
    assert_eq!(SpecId::BEDROCK.to_u8(), 128);
    assert_eq!(SpecId::REGOLITH.to_u8(), 129);
}

#[test]
fn decode_encode_round_trip() {
    for id in ALL_IDS {
        assert_eq!(SpecId::try_from_u8(id.to_u8()), Some(id));
    }
}

#[test]
fn decode_of_exact_raw_values() {
    assert_eq!(SpecId::try_from_u8(0), Some(SpecId::FRONTIER));
    assert_eq!(SpecId::try_from_u8(3), Some(SpecId::DAO_FORK));
    assert_eq!(SpecId::try_from_u8(10), Some(SpecId::MUIR_GLACIER));
    assert_eq!(SpecId::try_from_u8(18), Some(SpecId::LATEST));
    assert_eq!(SpecId::try_from_u8(128), Some(SpecId::BEDROCK));
    assert_eq!(SpecId::try_from_u8(129), Some(SpecId::REGOLITH));
}

#[test]
fn decode_is_absent_outside_published_set() {
    for raw in 19..128u8 {
        assert_eq!(SpecId::try_from_u8(raw), None);
    }
    for raw in 130..=255u8 {
        assert_eq!(SpecId::try_from_u8(raw), None);
    }
}

#[test]
fn parse_known_names() {
    assert_eq!(SpecId::from("Frontier"), SpecId::FRONTIER);
    assert_eq!(SpecId::from("Homestead"), SpecId::HOMESTEAD);
    assert_eq!(SpecId::from("Tangerine"), SpecId::TANGERINE);
    assert_eq!(SpecId::from("Spurious"), SpecId::SPURIOUS_DRAGON);
    assert_eq!(SpecId::from("Byzantium"), SpecId::BYZANTIUM);
    assert_eq!(SpecId::from("Constantinople"), SpecId::CONSTANTINOPLE);
    assert_eq!(SpecId::from("Petersburg"), SpecId::PETERSBURG);
    assert_eq!(SpecId::from("Istanbul"), SpecId::ISTANBUL);
    assert_eq!(SpecId::from("MuirGlacier"), SpecId::MUIR_GLACIER);
    assert_eq!(SpecId::from("Berlin"), SpecId::BERLIN);
    assert_eq!(SpecId::from("London"), SpecId::LONDON);
    assert_eq!(SpecId::from("Merge"), SpecId::MERGE);
    assert_eq!(SpecId::from("Shanghai"), SpecId::SHANGHAI);
    assert_eq!(SpecId::from("Cancun"), SpecId::CANCUN);
    assert_eq!(SpecId::from("Bedrock"), SpecId::BEDROCK);
    assert_eq!(SpecId::from("Regolith"), SpecId::REGOLITH);
}

#[test]
fn parse_falls_back_to_terminal() {
    assert_eq!(SpecId::from("unknown-garbage"), SpecId::LATEST);
    assert_eq!(SpecId::from(""), SpecId::LATEST);
    assert_eq!(SpecId::from("frontier"), SpecId::LATEST);
    assert_eq!(SpecId::from("Shanghai "), SpecId::LATEST);
}

#[test]
fn side_chain_exception_scenarios() {
    // Pre-branch mainline upgrades stay active on the side chain ...
    assert!(BedrockSpec::enabled(SpecId::FRONTIER));
    assert!(BedrockSpec::enabled(SpecId::LONDON));
    assert!(BedrockSpec::enabled(SpecId::MERGE));
    assert!(RegolithSpec::enabled(SpecId::GRAY_GLACIER));
    // ... post-branch mainline upgrades never do.
    assert!(!BedrockSpec::enabled(SpecId::SHANGHAI));
    assert!(!RegolithSpec::enabled(SpecId::CANCUN));
    // A mainline current version is never subject to the exception.
    assert!(LatestSpec::enabled(SpecId::SHANGHAI));
    assert!(FrontierSpec::enabled(SpecId::FRONTIER));
    assert!(!FrontierSpec::enabled(SpecId::HOMESTEAD));
}

#[test]
fn terminal_activates_every_mainline_version() {
    for id in ALL_IDS {
        if id != SpecId::BEDROCK && id != SpecId::REGOLITH {
            assert!(LatestSpec::enabled(id));
            assert!(SpecId::enabled(SpecId::LATEST, id));
        }
    }
}

#[test]
fn ranks_are_unique_and_strictly_ordered() {
    for (i, a) in ALL_IDS.iter().enumerate() {
        for (j, b) in ALL_IDS.iter().enumerate() {
            if i != j {
                assert_ne!(a.to_u8(), b.to_u8());
            }
            if i < j {
                assert!(a.to_u8() < b.to_u8());
            }
        }
    }
}
