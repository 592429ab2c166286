//! The query router against real protobuf payloads.

use osmosis_testing::{
    raw_execute_result, raw_query_result, route_query, route_response, BridgeRequest, QueryShape,
    RawOutcome, RunnerError,
};
use prost::Message;

#[test]
fn raw_outcomes_convert_without_loss() {
    match raw_query_result(RawOutcome::Bytes(vec![1, 2, 3])) {
        Ok(bytes) => assert_eq!(bytes, vec![1, 2, 3]),
        Err(_) => panic!("bytes must pass through"),
    }
    match raw_query_result(RawOutcome::Error("unknown path".to_string())) {
        Err(RunnerError::QueryError { msg }) => assert_eq!(msg, "unknown path"),
        other => panic!("expected a query error, got {:?}", other.ok()),
    }
    match raw_execute_result(RawOutcome::Error("failed to deliver".to_string())) {
        Err(RunnerError::ExecuteError { msg }) => assert_eq!(msg, "failed to deliver"),
        other => panic!("expected an execute error, got {:?}", other.ok()),
    }
}

fn balance_response_bytes(denom: &str, amount: &str) -> Vec<u8> {
    cosmrs::proto::cosmos::bank::v1beta1::QueryBalanceResponse {
        balance: Some(cosmrs::proto::cosmos::base::v1beta1::Coin {
            denom: denom.to_string(),
            amount: amount.to_string(),
        }),
    }
    .encode_to_vec()
}

fn supply_response_bytes(denom: &str, amount: &str) -> Vec<u8> {
    cosmrs::proto::cosmos::bank::v1beta1::QuerySupplyOfResponse {
        amount: Some(cosmrs::proto::cosmos::base::v1beta1::Coin {
            denom: denom.to_string(),
            amount: amount.to_string(),
        }),
    }
    .encode_to_vec()
}

#[test]
fn balance_query_routes_to_the_bank_path() {
    let shape = QueryShape::BankBalance { address: "osmo1abc".to_string(), denom: "uosmo".to_string() };
    let req = route_query(&shape);
    let (path, payload) = match req {
        BridgeRequest::Query { path, request_base64 } => (path, base64::decode(request_base64).unwrap()),
        _ => panic!("expected a query request"),
    };
    assert_eq!(path, "/cosmos.bank.v1beta1.Query/Balance");
    let decoded =
        cosmrs::proto::cosmos::bank::v1beta1::QueryBalanceRequest::decode(payload.as_slice()).unwrap();
    assert_eq!(decoded.address, "osmo1abc");
    assert_eq!(decoded.denom, "uosmo");
}

#[test]
fn smart_query_routes_to_the_wasm_path() {
    let shape = QueryShape::WasmSmart { contract_addr: "osmo1contract".to_string(), msg: b"{}".to_vec() };
    let req = route_query(&shape);
    let (path, payload) = match req {
        BridgeRequest::Query { path, request_base64 } => (path, base64::decode(request_base64).unwrap()),
        _ => panic!("expected a query request"),
    };
    assert_eq!(path, "/cosmwasm.wasm.v1.Query/SmartContractState");
    let decoded = cosmrs::proto::cosmwasm::wasm::v1::QuerySmartContractStateRequest::decode(
        payload.as_slice(),
    )
    .unwrap();
    assert_eq!(decoded.address, "osmo1contract");
    assert_eq!(decoded.query_data, b"{}".to_vec());
}

#[test]
fn balance_response_is_reencoded_as_the_cosmwasm_envelope() {
    let shape = QueryShape::BankBalance { address: "osmo1abc".to_string(), denom: "uosmo".to_string() };
    let out = route_response(&shape, RawOutcome::Bytes(balance_response_bytes("uosmo", "42"))).unwrap();
    assert_eq!(out, br#"{"amount":{"denom":"uosmo","amount":"42"}}"#.to_vec());
    // byte-identical to what the cosmwasm serializer produces
    let reference = cosmwasm_std::to_binary(&cosmwasm_std::BalanceResponse {
        amount: cosmwasm_std::Coin::new(42, "uosmo"),
    })
    .unwrap();
    assert_eq!(out, reference.to_vec());
}

#[test]
fn supply_response_is_reencoded_as_the_envelope() {
    let shape = QueryShape::BankSupply { denom: "uosmo".to_string() };
    let out = route_response(&shape, RawOutcome::Bytes(supply_response_bytes("uosmo", "1000"))).unwrap();
    assert_eq!(out, br#"{"amount":{"denom":"uosmo","amount":"1000"}}"#.to_vec());
}

#[test]
fn stargate_supply_path_is_recognised() {
    let shape = QueryShape::Stargate {
        path: "/cosmos.bank.v1beta1.Query/SupplyOf".to_string(),
        data: Vec::new(),
    };
    let out = route_response(&shape, RawOutcome::Bytes(supply_response_bytes("uatom", "7"))).unwrap();
    assert_eq!(out, br#"{"amount":{"denom":"uatom","amount":"7"}}"#.to_vec());
}

fn pb_bytes_field(out: &mut Vec<u8>, tag: u8, payload: &[u8]) {
    assert!(payload.len() < 128);
    out.push(tag);
    out.push(payload.len() as u8);
    out.extend_from_slice(payload);
}

fn pb_coin(denom: &str, amount: &str) -> Vec<u8> {
    let mut c = Vec::new();
    pb_bytes_field(&mut c, 0x0a, denom.as_bytes());
    pb_bytes_field(&mut c, 0x12, amount.as_bytes());
    c
}

#[test]
fn wire_reader_agrees_with_the_real_codec() {
    // the hand-built coin bytes are exactly what prost emits, and the
    // verified wire reader reads back what prost wrote
    let reference = cosmrs::proto::cosmos::base::v1beta1::Coin {
        denom: "uosmo".to_string(),
        amount: "123".to_string(),
    }
    .encode_to_vec();
    assert_eq!(reference, pb_coin("uosmo", "123"));
    let (denom, amount) = osmosis_testing::protowire::read_wire_coin(&reference).unwrap();
    assert_eq!(denom, b"uosmo".to_vec());
    assert_eq!(amount, b"123".to_vec());
}

#[test]
fn stargate_join_pool_shares_path_is_recognised() {
    // share_out_amount = 1 (string), tokens_out = 2 (repeated Coin)
    let mut bytes = Vec::new();
    pb_bytes_field(&mut bytes, 0x0a, b"100");
    pb_bytes_field(&mut bytes, 0x12, &pb_coin("uosmo", "50"));
    pb_bytes_field(&mut bytes, 0x12, &pb_coin("uatom", "7"));
    let shape = QueryShape::Stargate {
        path: "/osmosis.gamm.v1beta1.Query/CalcJoinPoolShares".to_string(),
        data: Vec::new(),
    };
    let out = route_response(&shape, RawOutcome::Bytes(bytes)).unwrap();
    assert_eq!(
        out,
        br#"{"share_out_amount":"100","tokens_out":[{"denom":"uosmo","amount":"50"},{"denom":"uatom","amount":"7"}]}"#.to_vec()
    );
}

#[test]
fn stargate_join_pool_no_swap_path_is_recognised() {
    // tokens_out = 1 (repeated Coin), shares_out = 2 (string)
    let mut bytes = Vec::new();
    pb_bytes_field(&mut bytes, 0x0a, &pb_coin("uosmo", "5"));
    pb_bytes_field(&mut bytes, 0x12, b"42");
    let shape = QueryShape::Stargate {
        path: "/osmosis.gamm.v1beta1.Query/CalcJoinPoolNoSwapShares".to_string(),
        data: Vec::new(),
    };
    let out = route_response(&shape, RawOutcome::Bytes(bytes)).unwrap();
    assert_eq!(
        out,
        br#"{"tokens_out":[{"denom":"uosmo","amount":"5"}],"shares_out":"42"}"#.to_vec()
    );
}

#[test]
fn gamm_decoder_skips_unknown_fields() {
    let mut bytes = Vec::new();
    pb_bytes_field(&mut bytes, 0x0a, b"9");
    bytes.push(0x28); // field 5, varint
    bytes.push(0x07);
    bytes.push(0x3d); // field 7, fixed32
    bytes.extend_from_slice(&[1, 2, 3, 4]);
    let shape = QueryShape::Stargate {
        path: "/osmosis.gamm.v1beta1.Query/CalcJoinPoolShares".to_string(),
        data: Vec::new(),
    };
    let out = route_response(&shape, RawOutcome::Bytes(bytes)).unwrap();
    assert_eq!(out, br#"{"share_out_amount":"9","tokens_out":[]}"#.to_vec());
}

#[test]
fn gamm_garbage_bytes_are_a_decode_error() {
    let shape = QueryShape::Stargate {
        path: "/osmosis.gamm.v1beta1.Query/CalcJoinPoolShares".to_string(),
        data: Vec::new(),
    };
    // a length-delimited field running past the end of the buffer
    match route_response(&shape, RawOutcome::Bytes(vec![0x0a, 0x10, 0x61])) {
        Err(RunnerError::DecodeError(_)) => {}
        other => panic!("expected a decode error, got {:?}", other.ok()),
    }
}

#[test]
fn unrecognised_stargate_path_is_an_explicit_failure() {
    let shape = QueryShape::Stargate { path: "/nowhere.Query/Thing".to_string(), data: Vec::new() };
    match route_response(&shape, RawOutcome::Bytes(Vec::new())) {
        Err(RunnerError::QueryError { .. }) => {}
        other => panic!("expected a query error, got {:?}", other.err()),
    }
}

#[test]
fn smart_response_data_passes_through() {
    let shape = QueryShape::WasmSmart { contract_addr: "osmo1contract".to_string(), msg: b"{}".to_vec() };
    let bytes = cosmrs::proto::cosmwasm::wasm::v1::QuerySmartContractStateResponse {
        data: br#"{"admins":[]}"#.to_vec(),
    }
    .encode_to_vec();
    let out = route_response(&shape, RawOutcome::Bytes(bytes)).unwrap();
    assert_eq!(out, br#"{"admins":[]}"#.to_vec());
}

#[test]
fn bridge_error_becomes_a_query_error_never_a_value() {
    let shape = QueryShape::BankSupply { denom: "uosmo".to_string() };
    match route_response(&shape, RawOutcome::Error("no such denom".to_string())) {
        Err(RunnerError::QueryError { msg }) => assert_eq!(msg, "no such denom"),
        other => panic!("expected a query error, got {:?}", other.ok()),
    }
}

#[test]
fn garbage_response_bytes_are_a_decode_error() {
    let shape = QueryShape::BankBalance { address: "a".to_string(), denom: "d".to_string() };
    // wire type 7 does not exist, so this cannot decode
    match route_response(&shape, RawOutcome::Bytes(vec![0x0f, 0xff])) {
        Err(RunnerError::DecodeError(_)) => {}
        other => panic!("expected a decode error, got {:?}", other.ok()),
    }
}
