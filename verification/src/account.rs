//! Signing identities and their address derivation.
//!
//! An account's address is never stored: it is recomputed on demand as a
//! fixed function of the public key and the address prefix.  The key
//! arithmetic itself — secp256k1 public-key derivation and bech32 address
//! encoding — is done by the `cosmrs` crate behind the trusted items below;
//! everything above them is verified against the names those items
//! introduce.

use vstd::prelude::*;
use crate::fee::FeeSetting;

verus! {

/// Whether a byte string is a valid secp256k1 private scalar.
pub uninterp spec fn key_valid(priv_bytes: Seq<u8>) -> bool;

/// The public key (SEC1 bytes) belonging to a valid private key.
pub uninterp spec fn pubkey_of(priv_bytes: Seq<u8>) -> Seq<u8>;

/// Whether an address can be derived from these public-key bytes under this
/// prefix.
pub uninterp spec fn addr_ok(pub_bytes: Seq<u8>, prefix: Seq<char>) -> bool;

/// The bech32 address derived from public-key bytes under a prefix.
pub uninterp spec fn addr_of(pub_bytes: Seq<u8>, prefix: Seq<char>) -> Seq<char>;

/// The fixed prefix non-signing identities derive their address under.
pub open spec fn osmo_prefix() -> Seq<char> {
    "osmo"@
}

/// Relies on `cosmrs::crypto::secp256k1::SigningKey::from_slice` and
/// `SigningKey::public_key` / `PublicKey::to_bytes`: a valid private scalar
/// determines its public key, and both are functions of the bytes alone.
#[verifier::external_body]
fn compute_public_key(priv_bytes: &Vec<u8>) -> (r: Option<Vec<u8>>)
    ensures
        r is Some <==> key_valid(priv_bytes@),
        r matches Some(v) ==> v@ == pubkey_of(priv_bytes@),
{
    match cosmrs::crypto::secp256k1::SigningKey::from_slice(priv_bytes) {
        Ok(key) => Some(key.public_key().to_bytes()),
        Err(_) => None,
    }
}

/// Relies on `cosmrs::tendermint::PublicKey::from_raw_secp256k1`,
/// `cosmrs::crypto::PublicKey::account_id` and the bech32 rendering of
/// `cosmrs::AccountId`: the address is a function of the public-key bytes
/// and the prefix, and derivation fails only for malformed inputs.
#[verifier::external_body]
fn compute_address(pub_bytes: &Vec<u8>, prefix: &str) -> (r: Option<String>)
    ensures
        r is Some <==> addr_ok(pub_bytes@, prefix@),
        r matches Some(a) ==> a@ == addr_of(pub_bytes@, prefix@),
{
    let key = cosmrs::tendermint::PublicKey::from_raw_secp256k1(pub_bytes)?;
    match cosmrs::crypto::PublicKey::from(key).account_id(prefix) {
        Ok(id) => Some(id.to_string()),
        Err(_) => None,
    }
}

/// A signing identity: an address prefix, a private key, and the fee policy
/// its transactions use.  Key material never changes after construction;
/// only the fee policy can be replaced, and that returns a new value.
pub struct SigningAccount {
    pub prefix: String,
    pub priv_key: Vec<u8>,
    pub fee_setting: FeeSetting,
}

impl SigningAccount {
    /// The construction-time facts every other method relies on: the key is
    /// valid and the prefix admits address derivation.
    pub open spec fn wf(self) -> bool {
        &&& key_valid(self.priv_key@)
        &&& addr_ok(pubkey_of(self.priv_key@), self.prefix@)
    }

    /// Plain constructor; callers must already know the key and prefix are
    /// good.  `try_new` establishes that by checking.
    pub fn new(prefix: String, priv_key: Vec<u8>, fee_setting: FeeSetting) -> (r: SigningAccount)
        requires
            key_valid(priv_key@),
            addr_ok(pubkey_of(priv_key@), prefix@),
        ensures
            r.prefix == prefix,
            r.priv_key == priv_key,
            r.fee_setting == fee_setting,
            r.wf(),
    {
        SigningAccount { prefix, priv_key, fee_setting }
    }

    /// Checked constructor: `Some` exactly when the key is a valid
    /// secp256k1 scalar and an address can be derived under the prefix.
    pub fn try_new(prefix: String, priv_key: Vec<u8>, fee_setting: FeeSetting) -> (r: Option<
        SigningAccount,
    >)
        ensures
            r is Some <==> (key_valid(priv_key@) && addr_ok(pubkey_of(priv_key@), prefix@)),
            r matches Some(a) ==> a.prefix == prefix && a.priv_key == priv_key && a.fee_setting
                == fee_setting && a.wf(),
    {
        match compute_public_key(&priv_key) {
            None => None,
            Some(pub_bytes) => {
                match compute_address(&pub_bytes, prefix.as_str()) {
                    None => None,
                    Some(_) => Some(SigningAccount::new(prefix, priv_key, fee_setting)),
                }
            },
        }
    }

    pub fn clone(&self) -> (r: SigningAccount)
        ensures
            r.prefix == self.prefix,
            r.priv_key@ == self.priv_key@,
            r.fee_setting == self.fee_setting,
            self.wf() ==> r.wf(),
    {
        SigningAccount {
            prefix: self.prefix.clone(),
            priv_key: crate::strutil::clone_bytes(&self.priv_key),
            fee_setting: self.fee_setting.clone(),
        }
    }

    pub fn fee_setting(&self) -> (r: &FeeSetting)
        ensures
            r == &self.fee_setting,
    {
        &self.fee_setting
    }

    /// Functional update of the fee policy; key material is untouched.
    pub fn with_fee_setting(self, fee_setting: FeeSetting) -> (r: SigningAccount)
        ensures
            r.prefix == self.prefix,
            r.priv_key == self.priv_key,
            r.fee_setting == fee_setting,
            self.wf() ==> r.wf(),
    {
        SigningAccount { prefix: self.prefix, priv_key: self.priv_key, fee_setting }
    }

    /// The raw private key, as the signing step consumes it.
    pub fn signing_key(&self) -> (r: &Vec<u8>)
        ensures
            r == &self.priv_key,
    {
        &self.priv_key
    }

    pub fn public_key(&self) -> (r: Vec<u8>)
        requires
            self.wf(),
        ensures
            r@ == pubkey_of(self.priv_key@),
    {
        match compute_public_key(&self.priv_key) {
            Some(v) => v,
            None => vstd::pervasive::unreached(),
        }
    }

    /// The account's bech32 identifier under its prefix.
    pub fn account_id(&self) -> (r: String)
        requires
            self.wf(),
        ensures
            r@ == addr_of(pubkey_of(self.priv_key@), self.prefix@),
    {
        let pub_bytes = self.public_key();
        match compute_address(&pub_bytes, self.prefix.as_str()) {
            Some(a) => a,
            None => vstd::pervasive::unreached(),
        }
    }

    /// The account's address: recomputed from the key and prefix on every
    /// call, never cached.
    pub fn address(&self) -> (r: String)
        requires
            self.wf(),
        ensures
            r@ == addr_of(pubkey_of(self.priv_key@), self.prefix@),
    {
        self.account_id()
    }
}

/// Two address computations on one account yield the same string: the
/// address is a function of the account's key and prefix alone.
pub proof fn lemma_address_idempotent(acct: SigningAccount, r1: Seq<char>, r2: Seq<char>)
    requires
        r1 == addr_of(pubkey_of(acct.priv_key@), acct.prefix@),
        r2 == addr_of(pubkey_of(acct.priv_key@), acct.prefix@),
    ensures
        r1 == r2,
{
}

/// A non-signing identity: only a public key, addressed under the fixed
/// prefix.  Constructible from a signing identity by dropping the private
/// key — a one-way conversion.
pub struct NonSigningAccount {
    pub public_key: Vec<u8>,
}

impl NonSigningAccount {
    pub open spec fn wf(self) -> bool {
        addr_ok(self.public_key@, osmo_prefix())
    }

    pub fn from_public_key(public_key: Vec<u8>) -> (r: NonSigningAccount)
        ensures
            r.public_key == public_key,
    {
        NonSigningAccount { public_key }
    }

    /// Drops the private key of a signing identity, keeping only what is
    /// needed to derive addresses under the fixed prefix.
    pub fn from_signing(acct: &SigningAccount) -> (r: NonSigningAccount)
        requires
            acct.wf(),
        ensures
            r.public_key@ == pubkey_of(acct.priv_key@),
    {
        NonSigningAccount { public_key: acct.public_key() }
    }

    pub fn public_key(&self) -> (r: &Vec<u8>)
        ensures
            r == &self.public_key,
    {
        &self.public_key
    }

    pub fn account_id(&self) -> (r: String)
        requires
            self.wf(),
        ensures
            r@ == addr_of(self.public_key@, osmo_prefix()),
    {
        match compute_address(&self.public_key, "osmo") {
            Some(a) => a,
            None => vstd::pervasive::unreached(),
        }
    }

    pub fn address(&self) -> (r: String)
        requires
            self.wf(),
        ensures
            r@ == addr_of(self.public_key@, osmo_prefix()),
    {
        self.account_id()
    }
}

} // verus!
