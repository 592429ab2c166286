//! Messages of the `osmosis.tokenfactory.v1beta1` module: creating and
//! administering factory denominations.

use vstd::prelude::*;
use crate::types::base::ProtoCoin;

verus! {

/// The authority metadata of a factory denomination.
#[derive(Clone, Debug, PartialEq, Eq)]
pub struct DenomAuthorityMetadata {
    /// The address that can mint, burn and change admin; empty when none.
    pub admin: String,
}

/// The module's parameters.
#[derive(Clone, Debug, PartialEq, Eq)]
pub struct Params {
    /// The fee charged for creating a denomination.
    pub denom_creation_fee: Vec<ProtoCoin>,
    /// Where creation fees are sent; empty to burn them.
    pub fee_collector_address: String,
}

/// The state the module starts from at genesis.
#[derive(Clone, Debug, PartialEq, Eq)]
pub struct GenesisState {
    pub params: Option<Params>,
    pub factory_denoms: Vec<GenesisDenom>,
}

/// One factory denomination at genesis.
#[derive(Clone, Debug, PartialEq, Eq)]
pub struct GenesisDenom {
    pub denom: String,
    pub authority_metadata: Option<DenomAuthorityMetadata>,
}

/// Request of the parameters query.
#[derive(Clone, Debug, PartialEq, Eq, Structural)]
pub struct QueryParamsRequest {}

/// Response of the parameters query.
#[derive(Clone, Debug, PartialEq, Eq)]
pub struct QueryParamsResponse {
    pub params: Option<Params>,
}

/// Request of the authority-metadata query.
#[derive(Clone, Debug, PartialEq, Eq)]
pub struct QueryDenomAuthorityMetadataRequest {
    pub creator: String,
    pub subdenom: String,
}

/// Response of the authority-metadata query.
#[derive(Clone, Debug, PartialEq, Eq)]
pub struct QueryDenomAuthorityMetadataResponse {
    pub authority_metadata: Option<DenomAuthorityMetadata>,
}

/// Request of the denominations-by-creator query.
#[derive(Clone, Debug, PartialEq, Eq)]
pub struct QueryDenomsFromCreatorRequest {
    pub creator: String,
}

/// Response of the denominations-by-creator query.
#[derive(Clone, Debug, PartialEq, Eq)]
pub struct QueryDenomsFromCreatorResponse {
    pub denoms: Vec<String>,
}

/// Creates a new factory denomination under the sender.
#[derive(Clone, Debug, PartialEq, Eq)]
pub struct MsgCreateDenom {
    pub sender: String,
    /// The part of the denomination the creator chooses.
    pub subdenom: String,
}

/// Response of a create-denomination message.
#[derive(Clone, Debug, PartialEq, Eq)]
pub struct MsgCreateDenomResponse {
    /// The full denomination, including the creator's address.
    pub new_token_denom: String,
}

/// Mints a factory denomination to the admin.
#[derive(Clone, Debug, PartialEq, Eq)]
pub struct MsgMint {
    pub sender: String,
    pub amount: Option<ProtoCoin>,
}

#[derive(Clone, Debug, PartialEq, Eq, Structural)]
pub struct MsgMintResponse {}

/// Burns a factory denomination from the admin.
#[derive(Clone, Debug, PartialEq, Eq)]
pub struct MsgBurn {
    pub sender: String,
    pub amount: Option<ProtoCoin>,
}

#[derive(Clone, Debug, PartialEq, Eq, Structural)]
pub struct MsgBurnResponse {}

/// Hands a denomination's admin rights to another address.
#[derive(Clone, Debug, PartialEq, Eq)]
pub struct MsgChangeAdmin {
    pub sender: String,
    pub denom: String,
    pub new_admin: String,
}

#[derive(Clone, Debug, PartialEq, Eq, Structural)]
pub struct MsgChangeAdminResponse {}

} // verus!
