use lol_api::constants::{Division, DivisionError, Queue, QueueError, Rank, RankError, Tier, TierError};

#[test]
fn division_values() {
    assert_eq!(Division::I.value(), "I");
    assert_eq!(Division::II.value(), "II");
    assert_eq!(Division::III.value(), "III");
    assert_eq!(Division::IV.value(), "IV");
    assert_eq!(Division::V.value(), "V");
}

#[test]
fn division_parse_case_insensitive_and_digits() {
    assert_eq!(Division::parse_str("iv"), Ok(Division::IV));
    assert_eq!(Division::parse_str("IV"), Ok(Division::IV));
    assert_eq!(Division::parse_str("Iii"), Ok(Division::III));
    assert_eq!(Division::parse_str("1"), Ok(Division::I));
    assert_eq!(Division::parse_str("5"), Ok(Division::V));
    assert_eq!("II".parse::<Division>(), Ok(Division::II));
}

#[test]
fn division_parse_error_carries_lowercased_text() {
    assert_eq!(
        Division::parse_str("VI"),
        Err(DivisionError::InvalidDivision { value: "vi".to_string() })
    );
    assert_eq!(
        Division::parse_str(""),
        Err(DivisionError::InvalidDivision { value: String::new() })
    );
}

#[test]
fn rank_values_and_parse() {
    assert_eq!(Rank::III.value(), "III");
    assert_eq!(Rank::parse_str("3"), Ok(Rank::III));
    assert_eq!(Rank::parse_str("v"), Ok(Rank::V));
    assert_eq!(Rank::parse_str("0"), Err(RankError::InvalidRank { value: "0".to_string() }));
}

#[test]
fn queue_values_and_parse() {
    assert_eq!(Queue::RankedSolo5x5.value(), "RANKED_SOLO_5x5");
    assert_eq!(Queue::RankedTft.value(), "RANKED_TFT");
    assert_eq!(Queue::RankedFlexSr.value(), "RANKED_FLEX_SR");
    assert_eq!(Queue::RankedFlexIt.value(), "RANKED_FLEX_IT");
    assert_eq!(Queue::parse_str("RANKED_SOLO_5x5"), Ok(Queue::RankedSolo5x5));
    assert_eq!(Queue::parse_str("ranked_flex_sr"), Ok(Queue::RankedFlexSr));
    assert_eq!("Ranked_Tft".parse::<Queue>(), Ok(Queue::RankedTft));
    assert_eq!(
        Queue::parse_str("NORMAL"),
        Err(QueueError::InvalidQueue { value: "normal".to_string() })
    );
}

#[test]
fn tier_values_and_parse() {
    assert_eq!(Tier::Iron.value(), "IRON");
    assert_eq!(Tier::GrandMaster.value(), "GRAND_MASTER");
    assert_eq!(Tier::Challenger.value(), "CHALLENGER");
    assert_eq!(Tier::parse_str("Gold"), Ok(Tier::Gold));
    assert_eq!(Tier::parse_str("GRAND_MASTER"), Ok(Tier::GrandMaster));
    assert_eq!(
        Tier::parse_str("Unranked"),
        Err(TierError::InvalidTier { value: "unranked".to_string() })
    );
}

#[test]
fn canonical_forms_parse_back() {
    for d in [Division::I, Division::II, Division::III, Division::IV, Division::V].iter() {
        assert_eq!(Division::parse_str(d.value()), Ok(*d));
    }
    for q in [Queue::RankedSolo5x5, Queue::RankedTft, Queue::RankedFlexSr, Queue::RankedFlexIt].iter() {
        assert_eq!(Queue::parse_str(q.value()), Ok(*q));
    }
    for t in [
        Tier::Iron,
        Tier::Bronze,
        Tier::Silver,
        Tier::Gold,
        Tier::Platinum,
        Tier::Diamond,
        Tier::Master,
        Tier::GrandMaster,
        Tier::Challenger,
    ]
    .iter()
    {
        assert_eq!(Tier::parse_str(t.value()), Ok(*t));
    }
}
