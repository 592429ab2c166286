//! The typed message codec: protobuf encoding and decoding of the handful
//! of message schemas the harness itself speaks.
//!
//! The codec is an external collaborator: each operation is a trusted
//! wrapper around the generated protobuf code, and its result is named,
//! never restated.  Encoding and decoding are functions of their arguments
//! alone, and decoding an encoding yields the original message — the
//! round-trip law the protobuf implementation documents, shown here as the
//! verified `gas_info_round_trip`.

use vstd::prelude::*;
use prost::Message;
use cosmrs::proto::tendermint::Protobuf;
use cosmrs::proto::tendermint::v0_34::abci::ResponseDeliverTx as RawDeliverTx;
use cosmrs::tendermint::abci::response::DeliverTx;
use crate::result::{DeliverTxResult, TxAttribute, TxEvent};
use crate::types::base::ProtoCoin;

verus! {

/// The encoding of a gas-info message (gas wanted, gas used).
pub uninterp spec fn gas_info_enc(gas_wanted: u64, gas_used: u64) -> Seq<u8>;

/// What gas-info decoding reads from a byte string, where it accepts it.
pub uninterp spec fn gas_info_dec(bytes: Seq<u8>) -> Option<(u64, u64)>;

/// Relies on prost encoding of `cosmos.base.abci.v1beta1.GasInfo`;
/// decoding the encoding gives the pair back.
#[verifier::external_body]
fn encode_gas_info(gas_wanted: u64, gas_used: u64) -> (r: Vec<u8>)
    ensures
        r@ == gas_info_enc(gas_wanted, gas_used),
        gas_info_dec(r@) == Some((gas_wanted, gas_used)),
{
    cosmrs::proto::cosmos::base::abci::v1beta1::GasInfo { gas_wanted, gas_used }.encode_to_vec()
}

/// Relies on prost decoding of `cosmos.base.abci.v1beta1.GasInfo`:
/// accepts or rejects as a function of the bytes alone.
#[verifier::external_body]
pub(crate) fn decode_gas_info(bytes: &Vec<u8>) -> (r: Result<(u64, u64), String>)
    ensures
        r matches Ok(v) ==> gas_info_dec(bytes@) == Some(v),
        r is Ok <==> gas_info_dec(bytes@) is Some,
{
    match cosmrs::proto::cosmos::base::abci::v1beta1::GasInfo::decode(bytes.as_slice()) {
        Ok(info) => Ok((info.gas_wanted, info.gas_used)),
        Err(e) => Err(e.to_string()),
    }
}

/// The schema round-trip law, made executable: encoding a gas-info value
/// and decoding the bytes yields the value unchanged.  The body cannot
/// fail: decoding an encoding is accepted by the codec's contract.
pub fn gas_info_round_trip(gas_wanted: u64, gas_used: u64) -> (r: (u64, u64))
    ensures
        r == (gas_wanted, gas_used),
{
    let bytes = encode_gas_info(gas_wanted, gas_used);
    match decode_gas_info(&bytes) {
        Ok(pair) => pair,
        Err(_) => vstd::pervasive::unreached(),
    }
}

/// The encoding of a delivery request wrapping signed transaction bytes.
pub uninterp spec fn deliver_request_enc(tx: Seq<u8>) -> Seq<u8>;

/// Relies on prost encoding of `tendermint.abci.RequestDeliverTx`
/// (wire version 0.34).
#[verifier::external_body]
pub(crate) fn encode_deliver_request(tx: Vec<u8>) -> (r: Vec<u8>)
    ensures
        r@ == deliver_request_enc(tx@),
{
    cosmrs::proto::tendermint::v0_34::abci::RequestDeliverTx { tx: tx.into() }.encode_to_vec()
}

/// What decoding a delivery response reads from a byte string.
pub uninterp spec fn deliver_tx_dec(bytes: Seq<u8>) -> Option<DeliverTxResult>;

/// Relies on `tendermint::abci::response::DeliverTx` protobuf decoding
/// (`tendermint.abci.ResponseDeliverTx`, wire version 0.34): accepts or
/// rejects as a function of the bytes alone, and yields the message's
/// fields with event attributes as text.
#[verifier::external_body]
pub(crate) fn decode_deliver_tx(bytes: &Vec<u8>) -> (r: Result<DeliverTxResult, String>)
    ensures
        r matches Ok(v) ==> deliver_tx_dec(bytes@) == Some(v),
        r is Ok <==> deliver_tx_dec(bytes@) is Some,
{
    let res = <DeliverTx as Protobuf<RawDeliverTx>>::decode_vec(bytes).map_err(|e| e.to_string())?;
    let events = res.events.into_iter().map(|e| TxEvent { kind: e.kind, attributes: e.attributes.into_iter().map(|a| TxAttribute { key: a.key, value: a.value }).collect() }).collect();
    Ok(DeliverTxResult { code: res.code.value(), data: res.data.to_vec(), log: res.log, info: res.info, gas_wanted: res.gas_wanted, gas_used: res.gas_used, events, codespace: res.codespace })
}

/// The encoding of a bank balance query request (address, denom).
pub uninterp spec fn balance_request_enc(address: Seq<char>, denom: Seq<char>) -> Seq<u8>;

/// Relies on prost encoding of `cosmos.bank.v1beta1.QueryBalanceRequest`.
#[verifier::external_body]
pub(crate) fn encode_balance_request(address: &str, denom: &str) -> (r: Vec<u8>)
    ensures
        r@ == balance_request_enc(address@, denom@),
{
    cosmrs::proto::cosmos::bank::v1beta1::QueryBalanceRequest {
        address: address.to_string(),
        denom: denom.to_string(),
    }.encode_to_vec()
}

/// What decoding a bank balance query response reads: the balance coin,
/// where one is present.
pub uninterp spec fn balance_response_dec(bytes: Seq<u8>) -> Option<Option<ProtoCoin>>;

/// Relies on prost decoding of `cosmos.bank.v1beta1.QueryBalanceResponse`.
#[verifier::external_body]
pub(crate) fn decode_balance_response(bytes: &Vec<u8>) -> (r: Result<Option<ProtoCoin>, String>)
    ensures
        r matches Ok(v) ==> balance_response_dec(bytes@) == Some(v),
        r is Ok <==> balance_response_dec(bytes@) is Some,
{
    match cosmrs::proto::cosmos::bank::v1beta1::QueryBalanceResponse::decode(bytes.as_slice()) {
        Ok(res) => Ok(res.balance.map(|c| ProtoCoin { denom: c.denom, amount: c.amount })),
        Err(e) => Err(e.to_string()),
    }
}

/// The encoding of a bank supply query request.
pub uninterp spec fn supply_request_enc(denom: Seq<char>) -> Seq<u8>;

/// Relies on prost encoding of `cosmos.bank.v1beta1.QuerySupplyOfRequest`.
#[verifier::external_body]
pub(crate) fn encode_supply_request(denom: &str) -> (r: Vec<u8>)
    ensures
        r@ == supply_request_enc(denom@),
{
    cosmrs::proto::cosmos::bank::v1beta1::QuerySupplyOfRequest {
        denom: denom.to_string(),
    }.encode_to_vec()
}

/// What decoding a bank supply query response reads: the supply coin,
/// where one is present.
pub uninterp spec fn supply_response_dec(bytes: Seq<u8>) -> Option<Option<ProtoCoin>>;

/// Relies on prost decoding of `cosmos.bank.v1beta1.QuerySupplyOfResponse`.
#[verifier::external_body]
pub(crate) fn decode_supply_response(bytes: &Vec<u8>) -> (r: Result<Option<ProtoCoin>, String>)
    ensures
        r matches Ok(v) ==> supply_response_dec(bytes@) == Some(v),
        r is Ok <==> supply_response_dec(bytes@) is Some,
{
    match cosmrs::proto::cosmos::bank::v1beta1::QuerySupplyOfResponse::decode(bytes.as_slice()) {
        Ok(res) => Ok(res.amount.map(|c| ProtoCoin { denom: c.denom, amount: c.amount })),
        Err(e) => Err(e.to_string()),
    }
}

/// The encoding of a smart-contract state query request.
pub uninterp spec fn smart_request_enc(address: Seq<char>, query_data: Seq<u8>) -> Seq<u8>;

/// Relies on prost encoding of
/// `cosmwasm.wasm.v1.QuerySmartContractStateRequest`.
#[verifier::external_body]
pub(crate) fn encode_smart_request(address: &str, query_data: Vec<u8>) -> (r: Vec<u8>)
    ensures
        r@ == smart_request_enc(address@, query_data@),
{
    cosmrs::proto::cosmwasm::wasm::v1::QuerySmartContractStateRequest {
        address: address.to_string(),
        query_data,
    }.encode_to_vec()
}

/// What decoding a smart-contract state query response reads: the
/// contract's reply bytes.
pub uninterp spec fn smart_response_dec(bytes: Seq<u8>) -> Option<Seq<u8>>;

/// Relies on prost decoding of
/// `cosmwasm.wasm.v1.QuerySmartContractStateResponse`.
#[verifier::external_body]
pub(crate) fn decode_smart_response(bytes: &Vec<u8>) -> (r: Result<Vec<u8>, String>)
    ensures
        r matches Ok(v) ==> smart_response_dec(bytes@) == Some(v@),
        r is Ok <==> smart_response_dec(bytes@) is Some,
{
    match cosmrs::proto::cosmwasm::wasm::v1::QuerySmartContractStateResponse::decode(
        bytes.as_slice(),
    ) {
        Ok(res) => Ok(res.data),
        Err(e) => Err(e.to_string()),
    }
}

} // verus!
