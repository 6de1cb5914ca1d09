use paddle_api::entities::price::{PriceInterval, TaxMode};
use paddle_api::entities::{EntityStatus, EntityType};

#[test]
fn status_tags_round_trip() {
    for status in [EntityStatus::Active, EntityStatus::Archived] {
        assert_eq!(EntityStatus::from_str(status.as_str()), Ok(status));
    }
    assert_eq!(EntityStatus::Active.to_string(), "active");
    assert_eq!(EntityStatus::Archived.to_string(), "archived");
}

#[test]
fn type_tags_round_trip() {
    for kind in [EntityType::Custom, EntityType::Standard] {
        assert_eq!(EntityType::from_str(kind.as_str()), Ok(kind));
    }
    assert_eq!(EntityType::Custom.to_string(), "custom");
    assert_eq!(EntityType::Standard.to_string(), "standard");
}

#[test]
fn unknown_tags_are_errors() {
    assert_eq!(
        EntityStatus::from_str("Active"),
        Err("Unknown entity status".to_string())
    );
    assert_eq!(
        EntityType::from_str(""),
        Err("Unknown entity type".to_string())
    );
    assert_eq!(
        PriceInterval::from_str("decade"),
        Err("Unknown price interval".to_string())
    );
    assert_eq!(
        TaxMode::from_str("account-setting"),
        Err("Unknown tax mode".to_string())
    );
}

#[test]
fn interval_and_tax_mode_tags() {
    assert_eq!(PriceInterval::from_str("week"), Ok(PriceInterval::Week));
    assert_eq!(PriceInterval::from_str("year"), Ok(PriceInterval::Year));
    assert_eq!(PriceInterval::Month.as_str(), "month");
    assert_eq!(TaxMode::from_str("account_setting"), Ok(TaxMode::AccountSetting));
    assert_eq!(TaxMode::External.to_string(), "external");
    assert_eq!(TaxMode::from_str("internal"), Ok(TaxMode::Internal));
}

#[test]
fn defaults() {
    assert_eq!(EntityStatus::default(), EntityStatus::Active);
    assert_eq!(EntityType::default(), EntityType::Standard);
    assert_eq!(TaxMode::default(), TaxMode::AccountSetting);
}
