//! In-process test harness for an embedded chain simulator.
//!
//! The harness drives the simulator through a narrow bridge of primitive
//! requests (begin block, end block, account lookups, submit encoded
//! payload).  Everything the harness decides — coin normalisation, fee
//! resolution, transaction assembly, the begin/end-block bracketing
//! discipline, and query routing — is implemented and verified here; the
//! bridge itself is driven by the embedding program.

pub mod account;
pub mod bridge;
pub mod codec;
pub mod coin;
pub mod error;
pub mod fee;
pub mod jsonenc;
pub mod protowire;
pub mod result;
pub mod router;
pub mod runner;
pub mod sign;
pub mod strutil;
pub mod types;

pub use account::{NonSigningAccount, SigningAccount};
pub use bridge::{BridgeRequest, BridgeResponse, RawOutcome};
pub use bridge::{raw_execute_result, raw_query_result};
pub use coin::Coin;
pub use error::{DecodeError, EncodeError, RunnerError};
pub use fee::{FeeData, FeeSetting, GasAdjustment};
pub use router::{QueryShape, route_query, route_response};
pub use result::{DeliverTxResult, RunnerResult, TxAttribute, TxEvent};
pub use runner::{ExecState, ExecuteFlow, FlowStep, InitAccountFlow, InitState, OsmosisTestApp, SimState, SimulateFlow, TraceEvent};
pub use sign::AnyMsg;
