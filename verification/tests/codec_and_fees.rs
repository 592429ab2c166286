//! The codec round trip, the JSON encoders against serde, fee resolution
//! arithmetic, and the protobuf enum helpers.

use osmosis_testing::codec::gas_info_round_trip;
use osmosis_testing::fee::{resolve_auto, resolve_custom};
use osmosis_testing::jsonenc::coins_to_json;
use osmosis_testing::types::circuit::Level;
use osmosis_testing::{Coin, GasAdjustment};

#[test]
fn gas_info_encoding_round_trips() {
    assert_eq!(gas_info_round_trip(42, 99), (42, 99));
    assert_eq!(gas_info_round_trip(0, 0), (0, 0));
    assert_eq!(gas_info_round_trip(u64::MAX, 1), (u64::MAX, 1));
}

#[test]
fn auto_fee_scales_and_rounds_up() {
    // gas limit = ceil(12345 * 1.2) = 14814, fee = 14814 * 25 = 370350
    let price = Coin::new(25, "uosmo".to_string());
    let fee = resolve_auto(&price, GasAdjustment { thousandths: 1200 }, 12_345);
    assert_eq!(fee.gas_limit, 14_814);
    assert_eq!(fee.amount.amount, 370_350);
    assert_eq!(fee.amount.denom, "uosmo");
    // an exact multiple needs no rounding
    let fee = resolve_auto(&price, GasAdjustment { thousandths: 1200 }, 10_000);
    assert_eq!(fee.gas_limit, 12_000);
    // rounding is up, never down
    let fee = resolve_auto(&price, GasAdjustment { thousandths: 1200 }, 1);
    assert_eq!(fee.gas_limit, 2);
}

#[test]
fn auto_fee_is_paid_in_the_fixed_denom() {
    // the gas price sets the rate; the fee itself is paid in the session's
    // fixed fee denomination
    let price = Coin::new(10, "uatom".to_string());
    let fee = resolve_auto(&price, GasAdjustment { thousandths: 1000 }, 100);
    assert_eq!(fee.gas_limit, 100);
    assert_eq!(fee.amount.amount, 1_000);
    assert_eq!(fee.amount.denom, "uosmo");
}

#[test]
fn custom_fee_is_used_verbatim() {
    let fee = resolve_custom(Coin::new(1_000_000, "uosmo".to_string()), 100_000_000);
    assert_eq!(fee.amount.amount, 1_000_000);
    assert_eq!(fee.amount.denom, "uosmo");
    assert_eq!(fee.gas_limit, 100_000_000);
}

#[test]
fn coin_json_matches_the_serde_encoding() {
    let coins = vec![
        Coin::new(100_000_000_000, "uosmo".to_string()),
        Coin::new(7, "gamm/pool/1".to_string()),
        Coin::new(0, "a\"b\\c".to_string()),
    ];
    let ours = coins_to_json(&coins);
    let reference: Vec<cosmwasm_std::Coin> = coins
        .iter()
        .map(|c| cosmwasm_std::Coin::new(c.amount, c.denom.clone()))
        .collect();
    assert_eq!(ours, serde_json::to_string(&reference).unwrap().into_bytes());
}

#[test]
fn empty_coin_list_is_an_empty_array() {
    assert_eq!(coins_to_json(&Vec::new()), b"[]".to_vec());
}

#[test]
fn as_str_name() {
    assert_eq!(Level::NoneUnspecified.as_str_name(), "LEVEL_NONE_UNSPECIFIED");
    assert_eq!(Level::SomeMsgs.as_str_name(), "LEVEL_SOME_MSGS");
    assert_eq!(Level::AllMsgs.as_str_name(), "LEVEL_ALL_MSGS");
    assert_eq!(Level::SuperAdmin.as_str_name(), "LEVEL_SUPER_ADMIN");
}

#[test]
fn from_str_name() {
    assert_eq!(Level::from_str_name("LEVEL_NONE_UNSPECIFIED"), Some(Level::NoneUnspecified));
    assert_eq!(Level::from_str_name("LEVEL_SOME_MSGS"), Some(Level::SomeMsgs));
    assert_eq!(Level::from_str_name("LEVEL_ALL_MSGS"), Some(Level::AllMsgs));
    assert_eq!(Level::from_str_name("LEVEL_SUPER_ADMIN"), Some(Level::SuperAdmin));
    assert_eq!(Level::from_str_name("LEVEL_NOPE"), None);
}
