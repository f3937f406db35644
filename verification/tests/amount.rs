use lnp_node::amount::{AmountOfAsset, AmountOfAssetParseError};

#[test]
fn parses_asset_colon_amount() {
    let a = AmountOfAsset::from_str("btc:100").unwrap();
    assert_eq!(a.asset(), "btc");
    assert_eq!(a.amount(), 100);
}

#[test]
fn parses_amount_space_asset() {
    let a = AmountOfAsset::from_str("250 usdt").unwrap();
    assert_eq!(a.asset(), "usdt");
    assert_eq!(a.amount(), 250);
}

#[test]
fn rejects_missing_separator() {
    assert_eq!(AmountOfAsset::from_str("btc100"), Err(AmountOfAssetParseError::NeedsValuePair));
}

#[test]
fn rejects_two_separators() {
    assert_eq!(AmountOfAsset::from_str("a:1:2"), Err(AmountOfAssetParseError::NeedsValuePair));
    assert_eq!(AmountOfAsset::from_str("1 a b"), Err(AmountOfAssetParseError::NeedsValuePair));
}

#[test]
fn rejects_bad_amount() {
    assert_eq!(AmountOfAsset::from_str("btc:x1"), Err(AmountOfAssetParseError::InvalidAmount));
    assert_eq!(AmountOfAsset::from_str("btc:-1"), Err(AmountOfAssetParseError::InvalidAmount));
    assert_eq!(
        AmountOfAsset::from_str("btc:18446744073709551616"),
        Err(AmountOfAssetParseError::InvalidAmount)
    );
}

#[test]
fn accepts_plus_sign_and_max() {
    let a = AmountOfAsset::from_str("btc:+18446744073709551615").unwrap();
    assert_eq!(a.amount(), u64::MAX);
}

#[test]
fn colon_wins_over_space() {
    let a = AmountOfAsset::from_str("my coin:5").unwrap();
    assert_eq!(a.asset(), "my coin");
    assert_eq!(a.amount(), 5);
}

#[test]
fn displays_both_forms() {
    let a = AmountOfAsset::from_str("btc:42").unwrap();
    assert_eq!(a.to_display_string(), "42 btc");
    assert_eq!(a.to_alt_display_string(), "btc:42");
}

#[test]
fn display_roundtrips() {
    let a = AmountOfAsset::from_str("eth:7").unwrap();
    let b = AmountOfAsset::from_str(&a.to_display_string()).unwrap();
    let c = AmountOfAsset::from_str(&a.to_alt_display_string()).unwrap();
    assert_eq!(a, b);
    assert_eq!(a, c);
}

#[test]
fn error_messages() {
    assert!(AmountOfAssetParseError::InvalidAmount
        .to_display_string()
        .starts_with("The provided amount can't be interpreted"));
    assert!(AmountOfAssetParseError::NeedsValuePair
        .to_display_string()
        .starts_with("The provided value can't be parsed"));
}
