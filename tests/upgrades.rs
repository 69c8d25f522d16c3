use sequencer_reader::{
    Aspen, CurrencyPair, MarketMapGenesis, MissingField, OracleGenesis, RawAspen,
    RawBaseUpgradeInfo, RawIbcAcknowledgementFailureChange, RawPriceFeedChange,
    RawValidatorUpdateActionChange,
};

fn hex(bytes: &[u8]) -> String {
    bytes.iter().map(|b| format!("{b:02x}")).collect()
}

fn raw_aspen(activation_height: u64, app_version: u64) -> RawAspen {
    RawAspen {
        base_info: Some(RawBaseUpgradeInfo { activation_height, app_version }),
        price_feed_change: Some(RawPriceFeedChange {
            market_map_genesis: Some(MarketMapGenesis { encoded: vec![1, 2, 3] }),
            oracle_genesis: Some(OracleGenesis { encoded: vec![4, 5] }),
        }),
        validator_update_action_change: Some(RawValidatorUpdateActionChange {}),
        ibc_acknowledgement_failure_change: Some(RawIbcAcknowledgementFailureChange {}),
    }
}

fn missing(raw: RawAspen) -> MissingField {
    Aspen::try_from_raw_ref(&raw).unwrap_err().missing_field()
}

#[test]
fn serialized_validator_update_action_change_should_not_change() {
    let aspen = Aspen::try_from_raw_ref(&raw_aspen(10, 2)).unwrap();
    let serialized_validator_update_action_change =
        hex(&aspen.validator_update_action_change().to_vec());
    assert_eq!(
        serialized_validator_update_action_change,
        "0a000000000000000200000000000000"
    );
}

#[test]
fn serialized_ibc_acknowledgement_failure_change_should_not_change() {
    let aspen = Aspen::try_from_raw_ref(&raw_aspen(10, 2)).unwrap();
    let serialized_ibc_acknowledgement_failure_change =
        hex(&aspen.ibc_acknowledgement_failure_change().to_vec());
    assert_eq!(
        serialized_ibc_acknowledgement_failure_change,
        "0a000000000000000200000000000000"
    );
}

#[test]
fn serialization_is_little_endian_per_field() {
    let aspen = Aspen::try_from_raw_ref(&raw_aspen(0x0102_0304_0506_0708, u64::MAX)).unwrap();
    assert_eq!(
        aspen.validator_update_action_change().to_vec(),
        vec![8, 7, 6, 5, 4, 3, 2, 1, 255, 255, 255, 255, 255, 255, 255, 255]
    );
}

#[test]
fn aspen_from_raw_shares_its_base_info() {
    let aspen = Aspen::try_from_raw_ref(&raw_aspen(100, 3)).unwrap();
    assert_eq!(aspen.name(), "aspen");
    assert_eq!(aspen.activation_height(), 100);
    assert_eq!(aspen.app_version(), 3);
    let price_feed = aspen.price_feed_change();
    assert_eq!(price_feed.activation_height(), 100);
    assert_eq!(price_feed.app_version(), 3);
    assert_eq!(price_feed.market_map_genesis().encoded, vec![1, 2, 3]);
    assert_eq!(price_feed.oracle_genesis().encoded, vec![4, 5]);
    assert_eq!(aspen.validator_update_action_change().activation_height(), 100);
    assert_eq!(aspen.ibc_acknowledgement_failure_change().app_version(), 3);
}

#[test]
fn aspen_changes_in_order() {
    let aspen = Aspen::try_from_raw_ref(&raw_aspen(7, 2)).unwrap();
    let changes = aspen.changes();
    let names: Vec<&str> = changes.iter().map(|c| c.name()).collect();
    assert_eq!(
        names,
        vec![
            "price_feed_change",
            "validator_update_action_change",
            "ibc_acknowledgement_failure_change"
        ]
    );
    for change in &changes {
        assert_eq!(change.activation_height(), 7);
        assert_eq!(change.app_version(), 2);
    }
}

#[test]
fn aspen_raw_round_trip() {
    let aspen = Aspen::try_from_raw_ref(&raw_aspen(55, 4)).unwrap();
    let raw = aspen.to_raw();
    assert_eq!(raw.base_info, Some(RawBaseUpgradeInfo { activation_height: 55, app_version: 4 }));
    let again = Aspen::try_from_raw_ref(&raw).unwrap();
    assert_eq!(again.activation_height(), 55);
    assert_eq!(again.app_version(), 4);
    assert_eq!(again.price_feed_change().market_map_genesis().encoded, vec![1, 2, 3]);
    assert_eq!(again.price_feed_change().oracle_genesis().encoded, vec![4, 5]);
}

#[test]
fn aspen_missing_fields_are_reported_in_order() {
    let mut raw = raw_aspen(1, 1);
    raw.base_info = None;
    raw.validator_update_action_change = None;
    assert_eq!(missing(raw), MissingField::BaseInfo);

    let mut raw = raw_aspen(1, 1);
    raw.price_feed_change = None;
    assert_eq!(missing(raw), MissingField::PriceFeedChange);

    let mut raw = raw_aspen(1, 1);
    raw.price_feed_change.as_mut().unwrap().market_map_genesis = None;
    raw.ibc_acknowledgement_failure_change = None;
    assert_eq!(missing(raw), MissingField::PriceFeedMarketMapGenesis);

    let mut raw = raw_aspen(1, 1);
    raw.price_feed_change.as_mut().unwrap().oracle_genesis = None;
    assert_eq!(missing(raw), MissingField::PriceFeedOracleGenesis);

    let mut raw = raw_aspen(1, 1);
    raw.validator_update_action_change = None;
    assert_eq!(missing(raw), MissingField::ValidatorUpdateActionChange);

    let mut raw = raw_aspen(1, 1);
    raw.ibc_acknowledgement_failure_change = None;
    assert_eq!(missing(raw), MissingField::IbcAcknowledgementFailureChange);
}

#[test]
fn aspen_error_message_names_the_field() {
    let mut raw = raw_aspen(1, 1);
    raw.price_feed_change.as_mut().unwrap().oracle_genesis = None;
    let err = Aspen::try_from_raw_ref(&raw).unwrap_err();
    assert_eq!(
        err.message(),
        "`price_feed_change.oracle_genesis` field was not set"
    );
    assert_eq!(MissingField::BaseInfo.name(), "base_info");
}

#[test]
fn currency_pair_names() {
    assert_eq!(CurrencyPair::full_name(), "connect.types.v2.CurrencyPair");
    assert_eq!(CurrencyPair::type_url(), "/connect.types.v2.CurrencyPair");
    let pair = CurrencyPair { base: "BTC".to_string(), quote: "USD".to_string() };
    assert_eq!(pair.clone(), pair);
}
