//! Transaction assembly and signing.
//!
//! A pending transaction is an ordered list of opaque typed messages; order
//! is significant and preserved.  Assembling and signing the transaction —
//! protobuf body, signer info, sign doc, deterministic ECDSA signature —
//! is the work of the `cosmrs` crate behind the one trusted item below;
//! the result is a pure function of the arguments it is given.

use vstd::prelude::*;
use std::str::FromStr;
use cosmrs::{Any, Coin, Denom};
use cosmrs::crypto::secp256k1::SigningKey;
use cosmrs::tendermint::chain::Id;
use cosmrs::tx::{Body, Fee, SignDoc, SignerInfo};

verus! {

/// An opaque typed message: a protobuf type URL naming the schema and the
/// message's encoded bytes.
pub struct AnyMsg {
    pub type_url: String,
    pub value: Vec<u8>,
}

impl AnyMsg {
    pub fn new(type_url: String, value: Vec<u8>) -> (r: AnyMsg)
        ensures
            r.type_url == type_url,
            r.value == value,
    {
        AnyMsg { type_url, value }
    }

    pub fn clone(&self) -> (r: AnyMsg)
        ensures
            r.type_url == self.type_url,
            r.value@ == self.value@,
    {
        AnyMsg {
            type_url: self.type_url.clone(),
            value: crate::strutil::clone_bytes(&self.value),
        }
    }
}

/// The mathematical content of a message list: each message as its type URL
/// and its bytes, in order.
pub open spec fn any_views(s: Seq<AnyMsg>) -> Seq<(Seq<char>, Seq<u8>)> {
    s.map_values(|m: AnyMsg| (m.type_url@, m.value@))
}

/// The body and signer-metadata bytes produced for these inputs, where
/// assembly succeeds.  Deterministic: protobuf encoding of the body built
/// from the ordered messages, and of the auth info built from the key's
/// public key, the sequence and the fee.
pub uninterp spec fn body_auth_of(
    msgs: Seq<(Seq<char>, Seq<u8>)>,
    memo: Seq<char>,
    timeout_height: u32,
    fee_denom: Seq<char>,
    fee_amount: u128,
    gas_limit: u64,
    priv_key: Seq<u8>,
    sequence: u64,
) -> Option<(Seq<u8>, Seq<u8>)>;

/// The serialized signed transaction produced for a signable document,
/// where signing succeeds.  Deterministic: cosmrs signs with RFC 6979
/// ECDSA, so equal inputs give equal bytes.
pub uninterp spec fn signed_doc_of(
    body_bytes: Seq<u8>,
    auth_info_bytes: Seq<u8>,
    chain_id: Seq<char>,
    account_number: u64,
    priv_key: Seq<u8>,
) -> Option<Seq<u8>>;

/// The signed transaction bytes produced for these exact inputs, where
/// signing succeeds: the signable document is the encoded body and signer
/// metadata bound to the chain id and account number, signed with the
/// private key.
pub open spec fn signed_tx_of(
    msgs: Seq<(Seq<char>, Seq<u8>)>,
    priv_key: Seq<u8>,
    sequence: u64,
    account_number: u64,
    memo: Seq<char>,
    timeout_height: u32,
    fee_denom: Seq<char>,
    fee_amount: u128,
    gas_limit: u64,
    chain_id: Seq<char>,
) -> Option<Seq<u8>> {
    match body_auth_of(
        msgs,
        memo,
        timeout_height,
        fee_denom,
        fee_amount,
        gas_limit,
        priv_key,
        sequence,
    ) {
        None => None,
        Some(pair) => signed_doc_of(pair.0, pair.1, chain_id, account_number, priv_key),
    }
}

/// Relies on `cosmrs::tx::Body`, `SignerInfo::single_direct` and
/// `AuthInfo`: encodes the transaction body built from the ordered
/// messages, and the signer metadata built from the key's public key (the
/// key is valid by the precondition), the sequence and the single-coin
/// fee.  Succeeds or fails as a function of the arguments alone (an
/// invalid fee denomination, or a protobuf encoding failure).
#[verifier::external_body]
fn body_and_auth_bytes(
    msgs: &Vec<AnyMsg>,
    memo: &str,
    timeout_height: u32,
    fee_denom: &str,
    fee_amount: u128,
    gas_limit: u64,
    priv_key: &Vec<u8>,
    sequence: u64,
) -> (r: Result<(Vec<u8>, Vec<u8>), String>)
    requires
        crate::account::key_valid(priv_key@),
    ensures
        r matches Ok(p) ==> body_auth_of(
            any_views(msgs@),
            memo@,
            timeout_height,
            fee_denom@,
            fee_amount,
            gas_limit,
            priv_key@,
            sequence,
        ) == Some((p.0@, p.1@)),
        r is Ok <==> body_auth_of(
            any_views(msgs@),
            memo@,
            timeout_height,
            fee_denom@,
            fee_amount,
            gas_limit,
            priv_key@,
            sequence,
        ) is Some,
{
    let key = SigningKey::from_slice(priv_key).unwrap();
    let denom = Denom::from_str(fee_denom).map_err(|e| e.to_string())?;
    let fee = Fee::from_amount_and_gas(Coin { denom, amount: fee_amount }, gas_limit);
    let auth = SignerInfo::single_direct(Some(key.public_key()), sequence).auth_info(fee);
    let body = Body::new(msgs.iter().map(|m| Any { type_url: m.type_url.clone(), value: m.value.clone() }), memo, timeout_height);
    Ok((body.into_bytes().map_err(|e| e.to_string())?, auth.into_bytes().map_err(|e| e.to_string())?))
}

/// Relies on `cosmrs::tx::SignDoc` and `SigningKey::sign`: signs the
/// document made of the encoded body and signer metadata, the chain id
/// and the account number, with the private key (valid by the
/// precondition), and serializes the raw transaction.
#[verifier::external_body]
fn sign_doc_bytes(
    body_bytes: Vec<u8>,
    auth_info_bytes: Vec<u8>,
    chain_id: &str,
    account_number: u64,
    priv_key: &Vec<u8>,
) -> (r: Result<Vec<u8>, String>)
    requires
        crate::account::key_valid(priv_key@),
    ensures
        r matches Ok(v) ==> signed_doc_of(
            body_bytes@,
            auth_info_bytes@,
            chain_id@,
            account_number,
            priv_key@,
        ) == Some(v@),
        r is Ok <==> signed_doc_of(
            body_bytes@,
            auth_info_bytes@,
            chain_id@,
            account_number,
            priv_key@,
        ) is Some,
{
    let key = SigningKey::from_slice(priv_key).unwrap();
    let doc = SignDoc { body_bytes, auth_info_bytes, chain_id: chain_id.to_string(), account_number };
    doc.sign(&key).map_err(|e| e.to_string())?.to_bytes().map_err(|e| e.to_string())
}

/// Assembles and signs a transaction: the encoded body and signer
/// metadata are produced first, then signed as a document bound to the
/// chain id and account number.
pub(crate) fn sign_tx(
    msgs: &Vec<AnyMsg>,
    priv_key: &Vec<u8>,
    sequence: u64,
    account_number: u64,
    memo: &str,
    timeout_height: u32,
    fee_denom: &str,
    fee_amount: u128,
    gas_limit: u64,
    chain_id: &str,
) -> (r: Result<Vec<u8>, String>)
    requires
        crate::account::key_valid(priv_key@),
    ensures
        r matches Ok(v) ==> signed_tx_of(
            any_views(msgs@),
            priv_key@,
            sequence,
            account_number,
            memo@,
            timeout_height,
            fee_denom@,
            fee_amount,
            gas_limit,
            chain_id@,
        ) == Some(v@),
        r is Ok <==> signed_tx_of(
            any_views(msgs@),
            priv_key@,
            sequence,
            account_number,
            memo@,
            timeout_height,
            fee_denom@,
            fee_amount,
            gas_limit,
            chain_id@,
        ) is Some,
{
    let pair = match body_and_auth_bytes(
        msgs,
        memo,
        timeout_height,
        fee_denom,
        fee_amount,
        gas_limit,
        priv_key,
        sequence,
    ) {
        Ok(pair) => pair,
        Err(e) => {
            return Err(e);
        },
    };
    sign_doc_bytes(pair.0, pair.1, chain_id, account_number, priv_key)
}

} // verus!
