//! Accounts: address derivation and the init-account flow.

use osmosis_testing::{
    BridgeRequest, BridgeResponse, Coin, FeeSetting, FlowStep, GasAdjustment, NonSigningAccount,
    OsmosisTestApp, RunnerError, SigningAccount,
};

fn test_key(last: u8) -> Vec<u8> {
    let mut key = vec![0u8; 32];
    key[31] = last;
    key
}

/// Drives one init-account flow, answering the account creation with the
/// base64 of the given private key.
fn drive_init(coins: &[Coin], key: &[u8]) -> Result<SigningAccount, RunnerError> {
    let app = OsmosisTestApp::from_id(1);
    let owned: Vec<Coin> = coins.iter().map(|c| Coin::new(c.amount, c.denom.clone())).collect();
    let (flow, req) = app.init_account(owned);
    assert!(matches!(req, BridgeRequest::BeginBlock));
    let (flow, step) = flow.step(BridgeResponse::Done);
    match step {
        FlowStep::Next(BridgeRequest::InitAccount { .. }) => {}
        _ => panic!("expected the account creation request"),
    }
    let (flow, step) = flow.step(BridgeResponse::Text(base64::encode(key)));
    assert!(matches!(step, FlowStep::Next(BridgeRequest::EndBlock)));
    let (_, step) = flow.step(BridgeResponse::Done);
    match step {
        FlowStep::Complete(outcome) => outcome,
        _ => panic!("expected the flow to complete"),
    }
}

#[test]
fn test_init_accounts() {
    let coins = vec![Coin::new(100_000_000_000, "uosmo".to_string())];
    let mut accounts: Vec<SigningAccount> = Vec::new();
    for i in 0..3u8 {
        accounts.push(drive_init(&coins, &test_key(i + 1)).unwrap());
    }
    assert!(accounts.get(0).is_some());
    assert!(accounts.get(1).is_some());
    assert!(accounts.get(2).is_some());
    assert!(accounts.get(3).is_none());
}

#[test]
fn three_accounts_have_distinct_nonempty_addresses() {
    let coins = vec![Coin::new(100_000_000_000, "uosmo".to_string())];
    let a = drive_init(&coins, &test_key(1)).unwrap().address();
    let b = drive_init(&coins, &test_key(2)).unwrap().address();
    let c = drive_init(&coins, &test_key(3)).unwrap().address();
    assert!(!a.is_empty() && !b.is_empty() && !c.is_empty());
    assert_ne!(a, b);
    assert_ne!(a, c);
    assert_ne!(b, c);
}

#[test]
fn init_account_rejects_invalid_key_material() {
    let coins = vec![Coin::new(1, "uosmo".to_string())];
    // not valid base64 at all
    let app = OsmosisTestApp::from_id(1);
    let (flow, _) = app.init_account(vec![Coin::new(1, "uosmo".to_string())]);
    let (flow, _) = flow.step(BridgeResponse::Done);
    let (flow, _) = flow.step(BridgeResponse::Text("!!!not-base64!!!".to_string()));
    let (_, step) = flow.step(BridgeResponse::Done);
    match step {
        FlowStep::Complete(Err(RunnerError::DecodeError(_))) => {}
        _ => panic!("expected a decode error"),
    }
    // valid base64, but not a valid secp256k1 scalar (all zero)
    match drive_init(&coins, &[0u8; 32]) {
        Err(RunnerError::DecodeError(_)) => {}
        other => panic!("expected a decode error, got {:?}", other.err()),
    }
}

#[test]
fn init_account_normalises_coin_order() {
    // an unsorted coin list is reordered by denomination, not rejected,
    // and transmitted exactly as the serde encoding of the sorted list
    let app = OsmosisTestApp::from_id(1);
    let coins = vec![
        Coin::new(2_000, "uosmo".to_string()),
        Coin::new(1_000, "uatom".to_string()),
    ];
    let (flow, _) = app.init_account(coins);
    let (_, step) = flow.step(BridgeResponse::Done);
    let payload = match step {
        FlowStep::Next(BridgeRequest::InitAccount { coins_json }) => coins_json,
        _ => panic!("expected the account creation request"),
    };
    assert_eq!(
        payload,
        br#"[{"denom":"uatom","amount":"1000"},{"denom":"uosmo","amount":"2000"}]"#.to_vec()
    );
    let sorted = vec![
        cosmwasm_std::Coin::new(1_000, "uatom"),
        cosmwasm_std::Coin::new(2_000, "uosmo"),
    ];
    assert_eq!(payload, serde_json::to_string(&sorted).unwrap().into_bytes());
}

#[test]
fn address_is_idempotent() {
    let account = SigningAccount::try_new(
        "osmo".to_string(),
        test_key(5),
        FeeSetting::Custom { amount: Coin::new(1, "uosmo".to_string()), gas_limit: 1 },
    )
    .unwrap();
    let first = account.address();
    let second = account.address();
    assert_eq!(first, second);
    assert!(first.starts_with("osmo1"));
}

#[test]
fn with_fee_setting_replaces_only_the_fee() {
    let account = SigningAccount::try_new(
        "osmo".to_string(),
        test_key(6),
        FeeSetting::Auto {
            gas_price: Coin::new(0, "uosmo".to_string()),
            gas_adjustment: GasAdjustment { thousandths: 1200 },
        },
    )
    .unwrap();
    let before = account.address();
    let account = account.with_fee_setting(FeeSetting::Custom {
        amount: Coin::new(1_000_000, "uosmo".to_string()),
        gas_limit: 100_000_000,
    });
    assert_eq!(account.address(), before);
    match account.fee_setting() {
        FeeSetting::Custom { amount, gas_limit } => {
            assert_eq!(amount.amount, 1_000_000);
            assert_eq!(*gas_limit, 100_000_000);
        }
        _ => panic!("expected the custom fee policy"),
    }
}

#[test]
fn non_signing_account_keeps_the_address() {
    let account = SigningAccount::try_new(
        "osmo".to_string(),
        test_key(7),
        FeeSetting::Custom { amount: Coin::new(1, "uosmo".to_string()), gas_limit: 1 },
    )
    .unwrap();
    let addr = account.address();
    let dropped = NonSigningAccount::from_signing(&account);
    assert_eq!(dropped.address(), addr);
    assert_eq!(dropped.public_key(), &account.public_key());
}
