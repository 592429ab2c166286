//! The query router: the standard-querier emulation.
//!
//! The simulator speaks one physical protocol — a path and request bytes
//! in, response bytes or an error string out.  The router maps a closed
//! set of recognised logical query shapes onto that protocol and
//! re-encodes each response into the JSON envelope the caller of a
//! standard querier expects.  The set is deliberately partial: a shape or
//! stargate path outside it is an explicit failure, never a silent
//! default, and an error outcome from the bridge is surfaced verbatim.

use vstd::prelude::*;
use vstd::string::StringSliceAdditionalSpecFns;
use vstd::string::StringExecFns;
use crate::bridge::{base64_of, BridgeRequest, RawOutcome};
use crate::bridge::base64_encode;
use crate::codec::{
    balance_request_enc,
    balance_response_dec,
    decode_balance_response,
    decode_smart_response,
    decode_supply_response,
    encode_balance_request,
    encode_smart_request,
    encode_supply_request,
    smart_request_enc,
    smart_response_dec,
    supply_request_enc,
    supply_response_dec,
};
use crate::error::{DecodeError, EncodeError, RunnerError};
use crate::jsonenc::{all_digits, amount_object_json, check_all_digits, json_amount_object};
use crate::jsonenc::{json_coin_strs, json_string, push_coin_strs, push_json_string_bytes};
use crate::protowire::{coin_views, dec_gamm_no_swap, dec_gamm_shares, read_gamm_no_swap, read_gamm_shares};
use crate::strutil::str_eq;
use crate::types::base::ProtoCoin;

verus! {

/// The closed set of query shapes the router recognises.
pub enum QueryShape {
    /// A smart-contract state query.
    WasmSmart { contract_addr: String, msg: Vec<u8> },
    /// A bank balance query for one address and denomination.
    BankBalance { address: String, denom: String },
    /// A bank total-supply query for one denomination.
    BankSupply { denom: String },
    /// A raw passthrough query keyed by its handler path.
    Stargate { path: String, data: Vec<u8> },
}

/// The handler path a shape is served at.
pub open spec fn shape_path(shape: QueryShape) -> Seq<char> {
    match shape {
        QueryShape::WasmSmart { .. } => "/cosmwasm.wasm.v1.Query/SmartContractState"@,
        QueryShape::BankBalance { .. } => "/cosmos.bank.v1beta1.Query/Balance"@,
        QueryShape::BankSupply { .. } => "/cosmos.bank.v1beta1.Query/SupplyOf"@,
        QueryShape::Stargate { path, .. } => path@,
    }
}

/// The encoded request bytes a shape submits.
pub open spec fn shape_payload(shape: QueryShape) -> Seq<u8> {
    match shape {
        QueryShape::WasmSmart { contract_addr, msg } => smart_request_enc(contract_addr@, msg@),
        QueryShape::BankBalance { address, denom } => balance_request_enc(address@, denom@),
        QueryShape::BankSupply { denom } => supply_request_enc(denom@),
        QueryShape::Stargate { data, .. } => data@,
    }
}

/// Translates a recognised shape into the one physical query the bridge
/// understands: its handler path and its base64-encoded request bytes.
pub fn route_query(shape: &QueryShape) -> (r: BridgeRequest)
    ensures
        r matches BridgeRequest::Query { path, request_base64 } && path@ == shape_path(*shape)
            && request_base64@ == base64_of(shape_payload(*shape)),
{
    match shape {
        QueryShape::WasmSmart { contract_addr, msg } => {
            let payload = encode_smart_request(
                contract_addr.as_str(),
                crate::strutil::clone_bytes(msg),
            );
            BridgeRequest::Query {
                path: String::from_str("/cosmwasm.wasm.v1.Query/SmartContractState"),
                request_base64: base64_encode(&payload),
            }
        },
        QueryShape::BankBalance { address, denom } => {
            let payload = encode_balance_request(address.as_str(), denom.as_str());
            BridgeRequest::Query {
                path: String::from_str("/cosmos.bank.v1beta1.Query/Balance"),
                request_base64: base64_encode(&payload),
            }
        },
        QueryShape::BankSupply { denom } => {
            let payload = encode_supply_request(denom.as_str());
            BridgeRequest::Query {
                path: String::from_str("/cosmos.bank.v1beta1.Query/SupplyOf"),
                request_base64: base64_encode(&payload),
            }
        },
        QueryShape::Stargate { path, data } => {
            let payload = crate::strutil::clone_bytes(data);
            BridgeRequest::Query {
                path: path.clone(),
                request_base64: base64_encode(&payload),
            }
        },
    }
}

/// The serde shape of a join-pool shares response:
/// `{"share_out_amount":<string>,"tokens_out":<coins>}`.
pub open spec fn json_gamm_shares(share: Seq<u8>, coins: Seq<(Seq<u8>, Seq<u8>)>) -> Seq<u8> {
    seq![
        0x7bu8,
        0x22u8,
        0x73u8,
        0x68u8,
        0x61u8,
        0x72u8,
        0x65u8,
        0x5fu8,
        0x6fu8,
        0x75u8,
        0x74u8,
        0x5fu8,
        0x61u8,
        0x6du8,
        0x6fu8,
        0x75u8,
        0x6eu8,
        0x74u8,
        0x22u8,
        0x3au8,
    ] + json_string(share) + seq![
        0x2cu8,
        0x22u8,
        0x74u8,
        0x6fu8,
        0x6bu8,
        0x65u8,
        0x6eu8,
        0x73u8,
        0x5fu8,
        0x6fu8,
        0x75u8,
        0x74u8,
        0x22u8,
        0x3au8,
    ] + json_coin_strs(coins) + seq![0x7du8]
}

/// The serde shape of a join-pool no-swap shares response:
/// `{"tokens_out":<coins>,"shares_out":<string>}`.
pub open spec fn json_gamm_no_swap(coins: Seq<(Seq<u8>, Seq<u8>)>, shares: Seq<u8>) -> Seq<u8> {
    seq![
        0x7bu8,
        0x22u8,
        0x74u8,
        0x6fu8,
        0x6bu8,
        0x65u8,
        0x6eu8,
        0x73u8,
        0x5fu8,
        0x6fu8,
        0x75u8,
        0x74u8,
        0x22u8,
        0x3au8,
    ] + json_coin_strs(coins) + seq![
        0x2cu8,
        0x22u8,
        0x73u8,
        0x68u8,
        0x61u8,
        0x72u8,
        0x65u8,
        0x73u8,
        0x5fu8,
        0x6fu8,
        0x75u8,
        0x74u8,
        0x22u8,
        0x3au8,
    ] + json_string(shares) + seq![0x7du8]
}

/// Encodes a join-pool shares response envelope.
fn gamm_shares_json(share: &[u8], coins: &Vec<(Vec<u8>, Vec<u8>)>) -> (r: Vec<u8>)
    ensures
        r@ == json_gamm_shares(share@, coin_views(coins@)),
{
    let mut out: Vec<u8> = Vec::new();
    out.push(0x7b);
    out.push(0x22);
    out.push(0x73);
    out.push(0x68);
    out.push(0x61);
    out.push(0x72);
    out.push(0x65);
    out.push(0x5f);
    out.push(0x6f);
    out.push(0x75);
    out.push(0x74);
    out.push(0x5f);
    out.push(0x61);
    out.push(0x6d);
    out.push(0x6f);
    out.push(0x75);
    out.push(0x6e);
    out.push(0x74);
    out.push(0x22);
    out.push(0x3a);
    push_json_string_bytes(&mut out, share);
    out.push(0x2c);
    out.push(0x22);
    out.push(0x74);
    out.push(0x6f);
    out.push(0x6b);
    out.push(0x65);
    out.push(0x6e);
    out.push(0x73);
    out.push(0x5f);
    out.push(0x6f);
    out.push(0x75);
    out.push(0x74);
    out.push(0x22);
    out.push(0x3a);
    push_coin_strs(&mut out, coins);
    out.push(0x7d);
    proof {
        assert(out@ =~= json_gamm_shares(share@, coin_views(coins@)));
    }
    out
}

/// Encodes a join-pool no-swap shares response envelope.
fn gamm_no_swap_json(coins: &Vec<(Vec<u8>, Vec<u8>)>, shares: &[u8]) -> (r: Vec<u8>)
    ensures
        r@ == json_gamm_no_swap(coin_views(coins@), shares@),
{
    let mut out: Vec<u8> = Vec::new();
    out.push(0x7b);
    out.push(0x22);
    out.push(0x74);
    out.push(0x6f);
    out.push(0x6b);
    out.push(0x65);
    out.push(0x6e);
    out.push(0x73);
    out.push(0x5f);
    out.push(0x6f);
    out.push(0x75);
    out.push(0x74);
    out.push(0x22);
    out.push(0x3a);
    push_coin_strs(&mut out, coins);
    out.push(0x2c);
    out.push(0x22);
    out.push(0x73);
    out.push(0x68);
    out.push(0x61);
    out.push(0x72);
    out.push(0x65);
    out.push(0x73);
    out.push(0x5f);
    out.push(0x6f);
    out.push(0x75);
    out.push(0x74);
    out.push(0x22);
    out.push(0x3a);
    push_json_string_bytes(&mut out, shares);
    out.push(0x7d);
    proof {
        assert(out@ =~= json_gamm_no_swap(coin_views(coins@), shares@));
    }
    out
}

/// What the router answers for a decoded coin: the JSON envelope when the
/// amount is decimal text, a JSON-encoding failure otherwise.
pub open spec fn coin_envelope_ok(r: Result<Vec<u8>, RunnerError>, coin: ProtoCoin) -> bool {
    if all_digits(vstd::utf8::encode_utf8(coin.amount@)) && vstd::utf8::encode_utf8(
        coin.amount@,
    ).len() > 0 {
        r matches Ok(v) && v@ == json_amount_object(
            vstd::utf8::encode_utf8(coin.denom@),
            vstd::utf8::encode_utf8(coin.amount@),
        )
    } else {
        r matches Err(RunnerError::EncodeError(EncodeError::JsonEncodeError(_)))
    }
}

/// Re-encodes the bridge's answer to a routed query into the JSON the
/// caller expects.
///
/// A bridge failure string becomes a query error, verbatim — never a
/// successful value.  A contract's reply passes through untouched; bank
/// responses become the single-coin envelope; the recognised stargate
/// paths — bank supply and the two join-pool share calculations — are
/// decoded and re-encoded into their response's serde shape; an
/// unrecognised path is an explicit query error, never a silent default.
pub fn route_response(shape: &QueryShape, raw: RawOutcome) -> (r: Result<Vec<u8>, RunnerError>)
    ensures
        raw matches RawOutcome::Error(m) ==> (r matches Err(RunnerError::QueryError { msg }) && msg
            == m),
        raw matches RawOutcome::Bytes(b) ==> match *shape {
            QueryShape::WasmSmart { .. } => match smart_response_dec(b@) {
                Some(data) => r matches Ok(v) && v@ == data,
                None => r matches Err(RunnerError::DecodeError(DecodeError::ProtoDecodeError(_))),
            },
            QueryShape::BankBalance { .. } => match balance_response_dec(b@) {
                None => r matches Err(RunnerError::DecodeError(DecodeError::ProtoDecodeError(_))),
                Some(None) => r matches Err(RunnerError::QueryError { .. }),
                Some(Some(coin)) => coin_envelope_ok(r, coin),
            },
            QueryShape::BankSupply { .. } => match supply_response_dec(b@) {
                None => r matches Err(RunnerError::DecodeError(DecodeError::ProtoDecodeError(_))),
                Some(None) => r matches Err(RunnerError::QueryError { .. }),
                Some(Some(coin)) => coin_envelope_ok(r, coin),
            },
            QueryShape::Stargate { path, .. } => {
                if path@ == "/cosmos.bank.v1beta1.Query/SupplyOf"@ {
                    match supply_response_dec(b@) {
                        None => r matches Err(RunnerError::DecodeError(
                            DecodeError::ProtoDecodeError(_),
                        )),
                        Some(None) => r matches Err(RunnerError::QueryError { .. }),
                        Some(Some(coin)) => coin_envelope_ok(r, coin),
                    }
                } else if path@ == "/osmosis.gamm.v1beta1.Query/CalcJoinPoolShares"@ {
                    match dec_gamm_shares(b@) {
                        None => r matches Err(RunnerError::DecodeError(
                            DecodeError::ProtoDecodeError(_),
                        )),
                        Some(v) => r matches Ok(out) && out@ == json_gamm_shares(v.0, v.1),
                    }
                } else if path@ == "/osmosis.gamm.v1beta1.Query/CalcJoinPoolNoSwapShares"@ {
                    match dec_gamm_no_swap(b@) {
                        None => r matches Err(RunnerError::DecodeError(
                            DecodeError::ProtoDecodeError(_),
                        )),
                        Some(v) => r matches Ok(out) && out@ == json_gamm_no_swap(v.0, v.1),
                    }
                } else {
                    r matches Err(RunnerError::QueryError { .. })
                }
            },
        },
{
    let b = match raw {
        RawOutcome::Error(msg) => {
            return Err(RunnerError::QueryError { msg });
        },
        RawOutcome::Bytes(b) => b,
    };
    match shape {
        QueryShape::WasmSmart { .. } => {
            match decode_smart_response(&b) {
                Ok(data) => Ok(data),
                Err(e) => Err(RunnerError::DecodeError(DecodeError::ProtoDecodeError(e))),
            }
        },
        QueryShape::BankBalance { .. } => {
            match decode_balance_response(&b) {
                Err(e) => Err(RunnerError::DecodeError(DecodeError::ProtoDecodeError(e))),
                Ok(None) => Err(
                    RunnerError::QueryError {
                        msg: String::from_str("balance response holds no coin"),
                    },
                ),
                Ok(Some(coin)) => coin_envelope(&coin),
            }
        },
        QueryShape::BankSupply { .. } => {
            match decode_supply_response(&b) {
                Err(e) => Err(RunnerError::DecodeError(DecodeError::ProtoDecodeError(e))),
                Ok(None) => Err(
                    RunnerError::QueryError {
                        msg: String::from_str("supply response holds no coin"),
                    },
                ),
                Ok(Some(coin)) => coin_envelope(&coin),
            }
        },
        QueryShape::Stargate { path, .. } => {
            if str_eq(path.as_str(), "/cosmos.bank.v1beta1.Query/SupplyOf") {
                match decode_supply_response(&b) {
                    Err(e) => Err(RunnerError::DecodeError(DecodeError::ProtoDecodeError(e))),
                    Ok(None) => Err(
                        RunnerError::QueryError {
                            msg: String::from_str("supply response holds no coin"),
                        },
                    ),
                    Ok(Some(coin)) => coin_envelope(&coin),
                }
            } else if str_eq(path.as_str(), "/osmosis.gamm.v1beta1.Query/CalcJoinPoolShares") {
                match read_gamm_shares(b.as_slice()) {
                    None => Err(
                        RunnerError::DecodeError(
                            DecodeError::ProtoDecodeError(
                                String::from_str("invalid join-pool shares response"),
                            ),
                        ),
                    ),
                    Some((share, coins)) => Ok(gamm_shares_json(share.as_slice(), &coins)),
                }
            } else if str_eq(
                path.as_str(),
                "/osmosis.gamm.v1beta1.Query/CalcJoinPoolNoSwapShares",
            ) {
                match read_gamm_no_swap(b.as_slice()) {
                    None => Err(
                        RunnerError::DecodeError(
                            DecodeError::ProtoDecodeError(
                                String::from_str("invalid join-pool no-swap response"),
                            ),
                        ),
                    ),
                    Some((coins, shares)) => Ok(gamm_no_swap_json(&coins, shares.as_slice())),
                }
            } else {
                Err(
                    RunnerError::QueryError {
                        msg: String::from_str("unsupported stargate query path"),
                    },
                )
            }
        },
    }
}

/// The single-coin JSON envelope, for a coin whose amount must be decimal
/// text.
fn coin_envelope(coin: &ProtoCoin) -> (r: Result<Vec<u8>, RunnerError>)
    ensures
        coin_envelope_ok(r, *coin),
{
    if check_all_digits(coin.amount.as_str()) {
        Ok(amount_object_json(coin.denom.as_str(), coin.amount.as_str()))
    } else {
        Err(
            RunnerError::EncodeError(
                EncodeError::JsonEncodeError(
                    String::from_str("coin amount is not decimal text"),
                ),
            ),
        )
    }
}

} // verus!
