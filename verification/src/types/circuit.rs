//! Messages of the `cosmos.circuit.v1` module: the circuit breaker's
//! permissions, queries and transactions.

use vstd::prelude::*;
use crate::strutil::str_eq;
use crate::types::base::{PageRequest, PageResponse};

verus! {

/// Permissions an account has to trip or reset the circuit breaker.
#[derive(Clone, Debug, PartialEq, Eq)]
pub struct Permissions {
    /// The permission level granted to the account.
    pub level: i32,
    /// With the some-messages level, the message type URLs the account may
    /// trip.
    pub limit_type_urls: Vec<String>,
}

/// The permission level.
#[derive(Clone, Copy, Debug, PartialEq, Eq, Structural, Hash, PartialOrd, Ord)]
pub enum Level {
    /// No circuit breaker permissions.
    NoneUnspecified,
    /// May trip or reset some message type URLs.
    SomeMsgs,
    /// May trip or reset all message type URLs.
    AllMsgs,
    /// May take all actions and grant permissions.
    SuperAdmin,
}

impl Level {
    /// String value of the enum field names used in the protobuf
    /// definition.
    pub fn as_str_name(&self) -> (r: &'static str)
        ensures
            *self == Level::NoneUnspecified ==> r@ == "LEVEL_NONE_UNSPECIFIED"@,
            *self == Level::SomeMsgs ==> r@ == "LEVEL_SOME_MSGS"@,
            *self == Level::AllMsgs ==> r@ == "LEVEL_ALL_MSGS"@,
            *self == Level::SuperAdmin ==> r@ == "LEVEL_SUPER_ADMIN"@,
    {
        match self {
            Level::NoneUnspecified => "LEVEL_NONE_UNSPECIFIED",
            Level::SomeMsgs => "LEVEL_SOME_MSGS",
            Level::AllMsgs => "LEVEL_ALL_MSGS",
            Level::SuperAdmin => "LEVEL_SUPER_ADMIN",
        }
    }

    /// The level a protobuf field name denotes, if any.
    pub fn from_str_name(value: &str) -> (r: Option<Level>)
        ensures
            value@ == "LEVEL_NONE_UNSPECIFIED"@ ==> r == Some(Level::NoneUnspecified),
            value@ == "LEVEL_SOME_MSGS"@ ==> r == Some(Level::SomeMsgs),
            value@ == "LEVEL_ALL_MSGS"@ ==> r == Some(Level::AllMsgs),
            value@ == "LEVEL_SUPER_ADMIN"@ ==> r == Some(Level::SuperAdmin),
            value@ != "LEVEL_NONE_UNSPECIFIED"@ && value@ != "LEVEL_SOME_MSGS"@ && value@
                != "LEVEL_ALL_MSGS"@ && value@ != "LEVEL_SUPER_ADMIN"@ ==> r is None,
    {
        proof {
            reveal_strlit("LEVEL_NONE_UNSPECIFIED");
            reveal_strlit("LEVEL_SOME_MSGS");
            reveal_strlit("LEVEL_ALL_MSGS");
            reveal_strlit("LEVEL_SUPER_ADMIN");
            assert("LEVEL_NONE_UNSPECIFIED"@.len() == 22);
            assert("LEVEL_SOME_MSGS"@.len() == 15);
            assert("LEVEL_ALL_MSGS"@.len() == 14);
            assert("LEVEL_SUPER_ADMIN"@.len() == 17);
        }
        if str_eq(value, "LEVEL_NONE_UNSPECIFIED") {
            Some(Level::NoneUnspecified)
        } else if str_eq(value, "LEVEL_SOME_MSGS") {
            Some(Level::SomeMsgs)
        } else if str_eq(value, "LEVEL_ALL_MSGS") {
            Some(Level::AllMsgs)
        } else if str_eq(value, "LEVEL_SUPER_ADMIN") {
            Some(Level::SuperAdmin)
        } else {
            None
        }
    }
}

/// The circuit breaker permissions of one account at genesis.
#[derive(Clone, Debug, PartialEq, Eq)]
pub struct GenesisAccountPermissions {
    pub address: String,
    pub permissions: Option<Permissions>,
}

/// The state the module starts from at genesis.
#[derive(Clone, Debug, PartialEq, Eq)]
pub struct GenesisState {
    pub account_permissions: Vec<GenesisAccountPermissions>,
    pub disabled_type_urls: Vec<String>,
}

/// Request of the account-permissions query.
#[derive(Clone, Debug, PartialEq, Eq)]
pub struct QueryAccountRequest {
    pub address: String,
}

/// Response of the account-permissions query.
#[derive(Clone, Debug, PartialEq, Eq)]
pub struct AccountResponse {
    pub permission: Option<Permissions>,
}

/// Request of the all-accounts query.
#[derive(Clone, Debug, PartialEq, Eq)]
pub struct QueryAccountsRequest {
    pub pagination: Option<PageRequest>,
}

/// Response of the all-accounts query.
#[derive(Clone, Debug, PartialEq, Eq)]
pub struct AccountsResponse {
    pub accounts: Vec<GenesisAccountPermissions>,
    pub pagination: Option<PageResponse>,
}

/// Request of the disabled-list query.
#[derive(Clone, Debug, PartialEq, Eq)]
pub struct QueryDisabledListRequest {}

/// Response of the disabled-list query.
#[derive(Clone, Debug, PartialEq, Eq)]
pub struct DisabledListResponse {
    pub disabled_list: Vec<String>,
}

/// Grants circuit breaker permissions to an account.
#[derive(Clone, Debug, PartialEq, Eq)]
pub struct MsgAuthorizeCircuitBreaker {
    pub granter: String,
    pub grantee: String,
    pub permissions: Option<Permissions>,
}

#[derive(Clone, Copy, Debug, PartialEq, Eq, Structural)]
pub struct MsgAuthorizeCircuitBreakerResponse {
    pub success: bool,
}

/// Stops processing of the named message type URLs.
#[derive(Clone, Debug, PartialEq, Eq)]
pub struct MsgTripCircuitBreaker {
    pub authority: String,
    pub msg_type_urls: Vec<String>,
}

#[derive(Clone, Copy, Debug, PartialEq, Eq, Structural)]
pub struct MsgTripCircuitBreakerResponse {
    pub success: bool,
}

/// Resumes processing of the named message type URLs.
#[derive(Clone, Debug, PartialEq, Eq)]
pub struct MsgResetCircuitBreaker {
    pub authority: String,
    pub msg_type_urls: Vec<String>,
}

#[derive(Clone, Copy, Debug, PartialEq, Eq, Structural)]
pub struct MsgResetCircuitBreakerResponse {
    pub success: bool,
}

} // verus!
