//! Driving the execute, simulate and init-account flows against a scripted
//! bridge.

use osmosis_testing::{
    AnyMsg, BridgeRequest, BridgeResponse, Coin, DeliverTxResult, FeeSetting, FlowStep,
    GasAdjustment, OsmosisTestApp, RawOutcome, RunnerError, SigningAccount, TxAttribute, TxEvent,
};
use cosmrs::proto::tendermint::Protobuf;
use prost::Message;

fn test_key(last: u8) -> Vec<u8> {
    let mut key = vec![0u8; 32];
    key[31] = last;
    key
}

fn test_account(fee_setting: FeeSetting) -> SigningAccount {
    SigningAccount::try_new("osmo".to_string(), test_key(1), fee_setting).unwrap()
}

fn custom_fee() -> FeeSetting {
    FeeSetting::Custom { amount: Coin::new(1_000_000, "uosmo".to_string()), gas_limit: 100_000_000 }
}

fn auto_fee() -> FeeSetting {
    FeeSetting::Auto {
        gas_price: Coin::new(25, "uosmo".to_string()),
        gas_adjustment: GasAdjustment { thousandths: 1200 },
    }
}

fn deliver_tx_bytes(gas_wanted: i64, gas_used: i64, events: Vec<(String, Vec<(String, String)>)>) -> Vec<u8> {
    let domain = cosmrs::tendermint::abci::response::DeliverTx {
        code: 0u32.into(),
        data: b"ok".to_vec().into(),
        log: String::new(),
        info: String::new(),
        gas_wanted,
        gas_used,
        events: events
            .into_iter()
            .map(|(kind, attrs)| cosmrs::tendermint::abci::Event {
                kind,
                attributes: attrs
                    .into_iter()
                    .map(|(key, value)| cosmrs::tendermint::abci::EventAttribute {
                        key,
                        value,
                        index: false,
                    })
                    .collect(),
            })
            .collect(),
        codespace: String::new(),
    };
    <cosmrs::tendermint::abci::response::DeliverTx as Protobuf<
        cosmrs::proto::tendermint::v0_34::abci::ResponseDeliverTx,
    >>::encode_vec(domain)
}

fn gas_info_bytes(gas_wanted: u64, gas_used: u64) -> Vec<u8> {
    cosmrs::proto::cosmos::base::abci::v1beta1::GasInfo { gas_wanted, gas_used }.encode_to_vec()
}

/// Drives an execute flow: serves each request from the script, counting
/// begin and end blocks, and returns the outcome with the counts and the
/// number of simulate requests.
fn drive_execute(
    msgs: Vec<AnyMsg>,
    signer: &SigningAccount,
    simulate_answer: Option<RawOutcome>,
    execute_answer: RawOutcome,
) -> (Result<DeliverTxResult, RunnerError>, usize, usize, usize) {
    let app = OsmosisTestApp::from_id(1);
    let (mut flow, first) = app.execute_multiple_raw(msgs, signer);
    let mut begins = 0usize;
    let mut ends = 0usize;
    let mut simulates = 0usize;
    let mut request = first;
    let mut sim_answer = simulate_answer;
    loop {
        let response = match request {
            BridgeRequest::BeginBlock => {
                begins += 1;
                BridgeResponse::Done
            }
            BridgeRequest::EndBlock => {
                ends += 1;
                BridgeResponse::Done
            }
            BridgeRequest::AccountSequence { ref address } => {
                assert!(!address.is_empty());
                BridgeResponse::Number(7)
            }
            BridgeRequest::AccountNumber { ref address } => {
                assert!(!address.is_empty());
                BridgeResponse::Number(3)
            }
            BridgeRequest::Simulate { ref tx_base64 } => {
                assert!(base64::decode(tx_base64).is_ok());
                simulates += 1;
                BridgeResponse::Raw(sim_answer.take().expect("unexpected simulate request"))
            }
            BridgeRequest::Execute { ref request_base64 } => {
                assert!(base64::decode(request_base64).is_ok());
                BridgeResponse::Raw(execute_answer.clone_outcome())
            }
            _ => panic!("unexpected request"),
        };
        let (next_flow, step) = flow.step(response);
        flow = next_flow;
        match step {
            FlowStep::Next(req) => request = req,
            FlowStep::Complete(outcome) => {
                return (outcome, begins, ends, simulates);
            }
        }
    }
}

trait CloneOutcome {
    fn clone_outcome(&self) -> RawOutcome;
}

impl CloneOutcome for RawOutcome {
    fn clone_outcome(&self) -> RawOutcome {
        match self {
            RawOutcome::Bytes(b) => RawOutcome::Bytes(b.clone()),
            RawOutcome::Error(e) => RawOutcome::Error(e.clone()),
        }
    }
}

#[test]
fn execute_success_brackets_block_once() {
    let signer = test_account(custom_fee());
    let msgs = vec![AnyMsg::new("/osmosis.tokenfactory.v1beta1.MsgCreateDenom".to_string(), vec![1, 2, 3])];
    let answer = RawOutcome::Bytes(deliver_tx_bytes(100_000_000, 55, vec![]));
    let (outcome, begins, ends, simulates) = drive_execute(msgs, &signer, None, answer);
    assert!(outcome.is_ok());
    assert_eq!(begins, 1);
    assert_eq!(ends, 1);
    assert_eq!(simulates, 0);
}

#[test]
fn execute_failure_still_closes_block() {
    let signer = test_account(custom_fee());
    let msgs = vec![AnyMsg::new("/a.b.MsgThing".to_string(), vec![9])];
    let answer = RawOutcome::Error("tx failed".to_string());
    let (outcome, begins, ends, _) = drive_execute(msgs, &signer, None, answer);
    match outcome {
        Err(RunnerError::ExecuteError { msg }) => assert_eq!(msg, "tx failed"),
        other => panic!("expected an execute error, got {:?}", other),
    }
    assert_eq!(begins, 1);
    assert_eq!(ends, 1);
}

#[test]
fn execute_auto_fee_simulates_once_and_closes_block() {
    let signer = test_account(auto_fee());
    let msgs = vec![AnyMsg::new("/a.b.MsgThing".to_string(), vec![9])];
    let sim = Some(RawOutcome::Bytes(gas_info_bytes(0, 12_345)));
    let answer = RawOutcome::Bytes(deliver_tx_bytes(14_814, 12_345, vec![]));
    let (outcome, begins, ends, simulates) = drive_execute(msgs, &signer, sim, answer);
    assert!(outcome.is_ok());
    assert_eq!(begins, 1);
    assert_eq!(ends, 1);
    assert_eq!(simulates, 1);
}

#[test]
fn execute_auto_fee_simulation_failure_closes_block() {
    let signer = test_account(auto_fee());
    let msgs = vec![AnyMsg::new("/a.b.MsgThing".to_string(), vec![9])];
    let sim = Some(RawOutcome::Error("out of gas".to_string()));
    let answer = RawOutcome::Bytes(deliver_tx_bytes(0, 0, vec![]));
    let (outcome, begins, ends, _) = drive_execute(msgs, &signer, sim, answer);
    match outcome {
        Err(RunnerError::ExecuteError { msg }) => assert_eq!(msg, "out of gas"),
        other => panic!("expected an execute error, got {:?}", other),
    }
    assert_eq!(begins, 1);
    assert_eq!(ends, 1);
}

#[test]
fn custom_fee_delivery_reports_the_bought_gas() {
    // A custom fee fixes the gas bought up front: the signed transaction
    // carries exactly the stored gas limit and fee amount, whatever the
    // message would actually cost, and the delivery reports that limit.
    let signer = test_account(custom_fee());
    let msgs = vec![AnyMsg::new("/a.b.MsgCheap".to_string(), vec![1])];

    let app = OsmosisTestApp::from_id(1);
    let (mut flow, mut request) = app.execute_multiple_raw(msgs, &signer);
    let mut delivered: Option<DeliverTxResult> = None;
    loop {
        let response = match request {
            BridgeRequest::BeginBlock | BridgeRequest::EndBlock => BridgeResponse::Done,
            BridgeRequest::AccountSequence { .. } => BridgeResponse::Number(0),
            BridgeRequest::AccountNumber { .. } => BridgeResponse::Number(0),
            BridgeRequest::Execute { ref request_base64 } => {
                // inspect the delivery payload: the signed transaction
                // must buy exactly the custom gas limit
                let encoded = base64::decode(request_base64).unwrap();
                let req = cosmrs::proto::tendermint::v0_34::abci::RequestDeliverTx::decode(
                    encoded.as_slice(),
                )
                .unwrap();
                let tx = cosmrs::Tx::from_bytes(&req.tx).unwrap();
                assert_eq!(tx.auth_info.fee.gas_limit, 100_000_000u64);
                assert_eq!(tx.auth_info.fee.amount.len(), 1);
                assert_eq!(tx.auth_info.fee.amount[0].amount, 1_000_000u128);
                assert_eq!(tx.auth_info.fee.amount[0].denom.as_ref(), "uosmo");
                assert_eq!(tx.body.memo, "");
                BridgeResponse::Raw(RawOutcome::Bytes(deliver_tx_bytes(100_000_000, 42, vec![])))
            }
            other => panic!("unexpected request {:?}", core::mem::discriminant(&other)),
        };
        let (next_flow, step) = flow.step(response);
        flow = next_flow;
        match step {
            FlowStep::Next(req) => request = req,
            FlowStep::Complete(outcome) => {
                delivered = Some(outcome.unwrap());
                break;
            }
        }
    }
    assert_eq!(delivered.unwrap().gas_wanted, 100_000_000);
}

#[test]
fn auto_fee_buys_the_scaled_simulated_gas() {
    // simulated gas_used 12345, adjustment 1.2, gas price 25:
    // gas limit = ceil(12345 * 1.2) = 14814, fee = 14814 * 25 = 370350
    let signer = test_account(auto_fee());
    let msgs = vec![AnyMsg::new("/a.b.MsgThing".to_string(), vec![9])];
    let app = OsmosisTestApp::from_id(1);
    let (mut flow, mut request) = app.execute_multiple_raw(msgs, &signer);
    let mut outcome = None;
    loop {
        let response = match request {
            BridgeRequest::BeginBlock | BridgeRequest::EndBlock => BridgeResponse::Done,
            BridgeRequest::AccountSequence { .. } => BridgeResponse::Number(0),
            BridgeRequest::AccountNumber { .. } => BridgeResponse::Number(0),
            BridgeRequest::Simulate { .. } => {
                BridgeResponse::Raw(RawOutcome::Bytes(gas_info_bytes(0, 12_345)))
            }
            BridgeRequest::Execute { ref request_base64 } => {
                let encoded = base64::decode(request_base64).unwrap();
                let req = cosmrs::proto::tendermint::v0_34::abci::RequestDeliverTx::decode(
                    encoded.as_slice(),
                )
                .unwrap();
                let tx = cosmrs::Tx::from_bytes(&req.tx).unwrap();
                assert_eq!(tx.auth_info.fee.gas_limit, 14_814u64);
                assert_eq!(tx.auth_info.fee.amount[0].amount, 370_350u128);
                assert_eq!(tx.auth_info.fee.amount[0].denom.as_ref(), "uosmo");
                BridgeResponse::Raw(RawOutcome::Bytes(deliver_tx_bytes(14_814, 12_345, vec![])))
            }
            other => panic!("unexpected request {:?}", core::mem::discriminant(&other)),
        };
        let (next_flow, step) = flow.step(response);
        flow = next_flow;
        match step {
            FlowStep::Next(req) => request = req,
            FlowStep::Complete(res) => {
                outcome = Some(res);
                break;
            }
        }
    }
    assert!(outcome.unwrap().is_ok());
}

#[test]
fn delivery_events_come_through_decoded() {
    let signer = test_account(custom_fee());
    let msgs = vec![AnyMsg::new("/osmosis.tokenfactory.v1beta1.MsgCreateDenom".to_string(), vec![5])];
    let events = vec![(
        "create_denom".to_string(),
        vec![
            ("creator".to_string(), "osmo1xyz".to_string()),
            ("new_token_denom".to_string(), "factory/osmo1xyz/newdenom".to_string()),
        ],
    )];
    let answer = RawOutcome::Bytes(deliver_tx_bytes(100_000_000, 9, events));
    let (outcome, _, _, _) = drive_execute(msgs, &signer, None, answer);
    let res = outcome.unwrap();
    let expected = TxEvent {
        kind: "create_denom".to_string(),
        attributes: vec![
            TxAttribute { key: "creator".to_string(), value: "osmo1xyz".to_string() },
            TxAttribute {
                key: "new_token_denom".to_string(),
                value: "factory/osmo1xyz/newdenom".to_string(),
            },
        ],
    };
    assert_eq!(res.events, vec![expected]);
}

#[test]
fn simulate_flow_signs_a_zero_fee_transaction() {
    let signer = test_account(auto_fee());
    let msgs = vec![AnyMsg::new("/a.b.MsgThing".to_string(), vec![1, 2])];
    let app = OsmosisTestApp::from_id(1);
    let (flow, req) = app.simulate_tx(msgs, &signer);
    let addr = match req {
        BridgeRequest::AccountSequence { address } => address,
        other => panic!("unexpected request {:?}", core::mem::discriminant(&other)),
    };
    assert_eq!(addr, signer.address());
    let (flow, step) = flow.step(BridgeResponse::Number(4));
    let req = match step {
        FlowStep::Next(r) => r,
        _ => panic!("flow finished early"),
    };
    assert!(matches!(req, BridgeRequest::AccountNumber { .. }));
    let (flow, step) = flow.step(BridgeResponse::Number(2));
    let tx_base64 = match step {
        FlowStep::Next(BridgeRequest::Simulate { tx_base64 }) => tx_base64,
        _ => panic!("expected a simulate request"),
    };
    let tx = cosmrs::Tx::from_bytes(&base64::decode(&tx_base64).unwrap()).unwrap();
    assert_eq!(tx.auth_info.fee.gas_limit, 0u64);
    assert_eq!(tx.auth_info.fee.amount[0].amount, 0u128);
    assert_eq!(tx.body.messages.len(), 1);
    assert_eq!(tx.body.messages[0].type_url, "/a.b.MsgThing");
    assert_eq!(tx.body.messages[0].value, vec![1, 2]);
    let (_, step) = flow.step(BridgeResponse::Raw(RawOutcome::Bytes(gas_info_bytes(10, 20))));
    match step {
        FlowStep::Complete(Ok(pair)) => assert_eq!(pair, (10, 20)),
        _ => panic!("expected the gas info pair"),
    }
}
