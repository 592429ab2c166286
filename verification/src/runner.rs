//! The execution orchestrator.
//!
//! Every operation against the simulator is a small state machine: the
//! harness returns the next [`BridgeRequest`] to perform, the embedding
//! program performs it and hands the [`BridgeResponse`] back through
//! `step`.  The machines decide everything — fee resolution, signing
//! inputs, error mapping — and their contracts pin each transition down.
//!
//! The one ordering invariant that matters most: a flow that opened a
//! block bracket closes it on every path, success or failure, before it
//! completes.  The ghost trace records the bracket calls, and
//! well-formedness forces every finished flow to have closed exactly the
//! one bracket it opened.

use vstd::prelude::*;
use vstd::string::StringExecFns;
use crate::account::{addr_of, addr_ok, key_valid, osmo_prefix, pubkey_of, SigningAccount};
use crate::bridge::{base64_of, BridgeRequest, BridgeResponse, RawOutcome};
use crate::bridge::{base64_decode, base64_decoded, base64_encode};
use crate::codec::{
    decode_gas_info,
    deliver_request_enc,
    deliver_tx_dec,
    decode_deliver_tx,
    encode_deliver_request,
    gas_info_dec,
};
use crate::coin::{Coin, coins_sorted, sort_coins};
use crate::error::{DecodeError, EncodeError, RunnerError};
use crate::fee::{auto_fee_ok, default_gas_adjustment, fee_denom_chars, FeeData, FeeSetting, resolve_auto, resolve_custom};
use crate::jsonenc::{coins_to_json, json_coins};
use crate::result::{DeliverTxResult, RunnerResult};
use crate::sign::{any_views, AnyMsg, sign_tx, signed_tx_of};

verus! {

/// The bracket-relevant calls a flow has asked the driver to perform.
#[derive(Clone, Copy, Debug, PartialEq, Eq, Structural)]
pub enum TraceEvent {
    Begin,
    End,
    SeqLookup,
    NumLookup,
    Simulate,
    Execute,
}

/// How often `e` occurs in a trace.
pub open spec fn count_ev(t: Seq<TraceEvent>, e: TraceEvent) -> nat
    decreases t.len(),
{
    if t.len() == 0 {
        0
    } else {
        count_ev(t.drop_last(), e) + (if t.last() == e {
            1nat
        } else {
            0nat
        })
    }
}

proof fn lemma_count_push_all(t: Seq<TraceEvent>, x: TraceEvent)
    ensures
        forall|e: TraceEvent|
            count_ev(t.push(x), e) == count_ev(t, e) + (if x == e {
                1nat
            } else {
                0nat
            }),
{
    assert(t.push(x).drop_last() =~= t);
}

/// What a flow hands back from one step: the next bridge request to
/// perform, or the flow's completed outcome.
pub enum FlowStep<T> {
    Next(BridgeRequest),
    Complete(RunnerResult<T>),
}

/// The chain identifier every sign doc is bound to.
pub open spec fn chain_id_chars() -> Seq<char> {
    "osmosis-1"@
}

// ---------------------------------------------------------------------------
// Execute flow
// ---------------------------------------------------------------------------

/// Where an execute flow stands; each waiting state names the request the
/// driver is currently serving.
pub enum ExecState {
    /// Begin-block sent.
    Opening,
    /// Sequence lookup for the fee-estimation signing (automatic fee).
    SimSeq,
    /// Account-number lookup for the fee-estimation signing.
    SimNum { seq: u64 },
    /// Zero-fee transaction submitted for simulation.
    Simulating,
    /// Sequence lookup for the real signing, fee already resolved.
    ExecSeq { fee: FeeData },
    /// Account-number lookup for the real signing.
    ExecNum { fee: FeeData, seq: u64 },
    /// Delivery request submitted.
    Executing,
    /// End-block sent; the outcome is decided.
    Closing { result: RunnerResult<DeliverTxResult> },
    Finished,
}

/// Whether the flow stands inside its block bracket.
pub open spec fn open_bracket(s: ExecState) -> bool {
    ||| s is Opening
    ||| s is SimSeq
    ||| s matches ExecState::SimNum { .. }
    ||| s is Simulating
    ||| s matches ExecState::ExecSeq { .. }
    ||| s matches ExecState::ExecNum { .. }
    ||| s is Executing
}

/// One build-sign-deliver run: messages, their signer, where the run
/// stands, and the trace of bracket calls it has requested.
///
/// Under an automatic fee the estimation round trip runs inside the block
/// bracket, after begin-block — a deliberate choice to keep the behaviour
/// of record: the estimate signs with the signer's live sequence number,
/// and fetching it inside the bracket keeps that number's meaning
/// identical to the one the real signing sees.  The bracket invariant is
/// the same either way: one begin, one end, on every path.
pub struct ExecuteFlow {
    pub msgs: Vec<AnyMsg>,
    pub signer: SigningAccount,
    pub state: ExecState,
    pub trace: Ghost<Seq<TraceEvent>>,
}

impl ExecuteFlow {
    /// The signer's address, as every lookup request carries it.
    pub open spec fn signer_addr(self) -> Seq<char> {
        addr_of(pubkey_of(self.signer.priv_key@), self.signer.prefix@)
    }

    /// The zero-fee transaction signed for fee estimation.
    pub open spec fn sim_tx(self, seq: u64, num: u64) -> Option<Seq<u8>> {
        signed_tx_of(
            any_views(self.msgs@),
            self.signer.priv_key@,
            seq,
            num,
            ""@,
            0,
            fee_denom_chars(),
            0,
            0,
            chain_id_chars(),
        )
    }

    /// The real transaction signed under the resolved fee.
    pub open spec fn exec_tx(self, fee: FeeData, seq: u64, num: u64) -> Option<Seq<u8>> {
        signed_tx_of(
            any_views(self.msgs@),
            self.signer.priv_key@,
            seq,
            num,
            ""@,
            0,
            fee.amount.denom@,
            fee.amount.amount,
            fee.gas_limit,
            chain_id_chars(),
        )
    }

    /// The flow's invariant: a valid signer; exactly one begin-block
    /// requested; the end-block requested exactly when the bracket is no
    /// longer open; no simulation ever requested under a custom fee; and
    /// the simulation states reachable only under an automatic fee.
    pub open spec fn wf(self) -> bool {
        &&& self.signer.wf()
        &&& count_ev(self.trace@, TraceEvent::Begin) == 1
        &&& count_ev(self.trace@, TraceEvent::End) == (if open_bracket(self.state) {
            0nat
        } else {
            1nat
        })
        &&& (self.signer.fee_setting matches FeeSetting::Custom { .. } ==> count_ev(
            self.trace@,
            TraceEvent::Simulate,
        ) == 0)
        &&& ((self.state is SimSeq || self.state matches ExecState::SimNum { .. } || self.state
            is Simulating) ==> self.signer.fee_setting matches FeeSetting::Auto { .. })
    }

    /// Which response kind the flow is waiting for.
    pub open spec fn expects(self, resp: BridgeResponse) -> bool {
        match self.state {
            ExecState::Opening => resp is Done,
            ExecState::SimSeq => resp is Number,
            ExecState::SimNum { .. } => resp is Number,
            ExecState::Simulating => resp is Raw,
            ExecState::ExecSeq { .. } => resp is Number,
            ExecState::ExecNum { .. } => resp is Number,
            ExecState::Executing => resp is Raw,
            ExecState::Closing { .. } => resp is Done,
            ExecState::Finished => false,
        }
    }

    /// Opens the bracket: the first request of every execute flow is
    /// begin-block, before any other work.
    pub fn start(msgs: Vec<AnyMsg>, signer: SigningAccount) -> (r: (ExecuteFlow, BridgeRequest))
        requires
            signer.wf(),
        ensures
            r.0.wf(),
            r.0.state is Opening,
            r.0.msgs == msgs,
            r.0.signer == signer,
            r.0.trace@ =~= seq![TraceEvent::Begin],
            r.1 is BeginBlock,
    {
        let ghost t0 = seq![TraceEvent::Begin];
        let flow = ExecuteFlow { msgs, signer, state: ExecState::Opening, trace: Ghost(t0) };
        proof {
            assert(t0.drop_last() =~= Seq::<TraceEvent>::empty());
            assert(t0.drop_last() == Seq::<TraceEvent>::empty());
            assert(t0.last() == TraceEvent::Begin);
            assert(count_ev(t0, TraceEvent::Begin) == 1) by {
                reveal_with_fuel(count_ev, 2);
            }
            assert(count_ev(t0, TraceEvent::End) == 0) by {
                reveal_with_fuel(count_ev, 2);
            }
            assert(count_ev(t0, TraceEvent::Simulate) == 0) by {
                reveal_with_fuel(count_ev, 2);
            }
        }
        (flow, BridgeRequest::BeginBlock)
    }

    /// Advances the flow with the response to its pending request.
    ///
    /// Every failure path turns toward `Closing`: the end-block request is
    /// issued whether signing, simulation, delivery or decoding failed,
    /// and only after its acknowledgement does the flow complete.
    pub fn step(self, resp: BridgeResponse) -> (r: (ExecuteFlow, FlowStep<DeliverTxResult>))
        requires
            self.wf(),
            self.expects(resp),
        ensures
            r.0.wf(),
            r.0.msgs == self.msgs,
            r.0.signer == self.signer,
            (r.1 matches FlowStep::Complete(_)) <==> (self.state matches ExecState::Closing {
                ..
            }),
            self.state matches ExecState::Closing { result } ==> r.0.state is Finished && r.1
                == FlowStep::<DeliverTxResult>::Complete(result),
            // opening: the first lookup of the path the fee policy picks
            self.state is Opening ==> asks_sequence(r.1, self.signer_addr()),
            self.state is Opening ==> (self.signer.fee_setting matches FeeSetting::Auto { .. }
                ==> r.0.state is SimSeq),
            self.state is Opening ==> (self.signer.fee_setting matches FeeSetting::Custom {
                amount,
                gas_limit,
            } ==> (r.0.state matches ExecState::ExecSeq { fee } && fee.amount == amount
                && fee.gas_limit == gas_limit)),
            // fee-estimation lookups
            self.state is SimSeq ==> (resp matches BridgeResponse::Number(n) ==> (
            r.0.state matches ExecState::SimNum { seq } && seq == n && asks_number(
                r.1,
                self.signer_addr(),
            ))),
            // fee-estimation signing: either the simulation request with
            // exactly the zero-fee signed bytes, or a closed bracket
            self.state matches ExecState::SimNum { seq } ==> (
            resp matches BridgeResponse::Number(num) ==> match self.sim_tx(seq, num) {
                Some(tx) => asks_simulate(r.1, base64_of(tx)) && r.0.state is Simulating,
                None => asks_end(r.1) && closing_encode_error(r.0.state),
            }),
            // simulation outcome: resolved fee or surfaced error
            self.state is Simulating ==> (resp matches BridgeResponse::Raw(raw) ==> match raw {
                RawOutcome::Error(m) => asks_end(r.1) && closing_execute_error(r.0.state, m@),
                RawOutcome::Bytes(b) => match gas_info_dec(b@) {
                    Some(pair) => asks_sequence(r.1, self.signer_addr()) && (
                    r.0.state matches ExecState::ExecSeq { fee } && (
                    self.signer.fee_setting matches FeeSetting::Auto { gas_price, gas_adjustment }
                        ==> auto_fee_ok(fee, gas_price, gas_adjustment, pair.1))),
                    None => asks_end(r.1) && closing_decode_error(r.0.state),
                },
            }),
            // real-signing lookups: the fee resolved earlier is untouched
            self.state matches ExecState::ExecSeq { fee } ==> (
            resp matches BridgeResponse::Number(n) ==> (
            r.0.state matches ExecState::ExecNum { fee: f2, seq } && f2 == fee && seq == n
                && asks_number(r.1, self.signer_addr()))),
            // real signing: the delivery request wraps exactly the signed
            // bytes under the resolved fee
            self.state matches ExecState::ExecNum { fee, seq } ==> (
            resp matches BridgeResponse::Number(num) ==> match self.exec_tx(fee, seq, num) {
                Some(tx) => asks_execute(r.1, base64_of(deliver_request_enc(tx)))
                    && r.0.state is Executing,
                None => asks_end(r.1) && closing_encode_error(r.0.state),
            }),
            // delivery outcome: decoded result or surfaced error; never a
            // success out of an error envelope
            self.state is Executing ==> (resp matches BridgeResponse::Raw(raw) ==> asks_end(r.1)
                && match raw {
                RawOutcome::Error(m) => closing_execute_error(r.0.state, m@),
                RawOutcome::Bytes(b) => match deliver_tx_dec(b@) {
                    Some(v) => r.0.state matches ExecState::Closing { result } && result
                        == Ok::<DeliverTxResult, RunnerError>(v),
                    None => closing_decode_error(r.0.state),
                },
            }),
    {
        match self.state {
            ExecState::Opening => {
                let addr = self.signer.address();
                let custom: Option<FeeData> = match &self.signer.fee_setting {
                    FeeSetting::Auto { .. } => None,
                    FeeSetting::Custom { amount, gas_limit } => Some(
                        resolve_custom(amount.clone(), *gas_limit),
                    ),
                };
                let ghost t = self.trace@.push(TraceEvent::SeqLookup);
                proof {
                    lemma_count_push_all(self.trace@, TraceEvent::SeqLookup);
                }
                let state = match custom {
                    None => ExecState::SimSeq,
                    Some(fee) => ExecState::ExecSeq { fee },
                };
                let flow = ExecuteFlow {
                    msgs: self.msgs,
                    signer: self.signer,
                    state,
                    trace: Ghost(t),
                };
                (flow, FlowStep::Next(BridgeRequest::AccountSequence { address: addr }))
            },
            ExecState::SimSeq => {
                let n = match resp {
                    BridgeResponse::Number(n) => n,
                    _ => vstd::pervasive::unreached(),
                };
                let addr = self.signer.address();
                let ghost t = self.trace@.push(TraceEvent::NumLookup);
                proof {
                    lemma_count_push_all(self.trace@, TraceEvent::NumLookup);
                }
                let flow = ExecuteFlow {
                    msgs: self.msgs,
                    signer: self.signer,
                    state: ExecState::SimNum { seq: n },
                    trace: Ghost(t),
                };
                (flow, FlowStep::Next(BridgeRequest::AccountNumber { address: addr }))
            },
            ExecState::SimNum { seq } => {
                let num = match resp {
                    BridgeResponse::Number(n) => n,
                    _ => vstd::pervasive::unreached(),
                };
                let signed = sign_tx(
                    &self.msgs,
                    &self.signer.priv_key,
                    seq,
                    num,
                    "",
                    0,
                    "uosmo",
                    0,
                    0,
                    "osmosis-1",
                );
                match signed {
                    Ok(tx) => {
                        let tx_base64 = base64_encode(&tx);
                        let ghost t = self.trace@.push(TraceEvent::Simulate);
                        proof {
                            lemma_count_push_all(self.trace@, TraceEvent::Simulate);
                        }
                        let flow = ExecuteFlow {
                            msgs: self.msgs,
                            signer: self.signer,
                            state: ExecState::Simulating,
                            trace: Ghost(t),
                        };
                        (flow, FlowStep::Next(BridgeRequest::Simulate { tx_base64 }))
                    },
                    Err(e) => self.close_with(
                        Err(RunnerError::EncodeError(EncodeError::ProtoEncodeError(e))),
                    ),
                }
            },
            ExecState::Simulating => {
                let raw = match resp {
                    BridgeResponse::Raw(raw) => raw,
                    _ => vstd::pervasive::unreached(),
                };
                match raw {
                    RawOutcome::Error(msg) => self.close_with(
                        Err(RunnerError::ExecuteError { msg }),
                    ),
                    RawOutcome::Bytes(b) => match decode_gas_info(&b) {
                        Ok(pair) => {
                            let (gas_price, gas_adjustment) = match &self.signer.fee_setting {
                                FeeSetting::Auto { gas_price, gas_adjustment } => (
                                    gas_price.clone(),
                                    *gas_adjustment,
                                ),
                                FeeSetting::Custom { .. } => vstd::pervasive::unreached(),
                            };
                            let fee = resolve_auto(&gas_price, gas_adjustment, pair.1);
                            let addr = self.signer.address();
                            let ghost t = self.trace@.push(TraceEvent::SeqLookup);
                            proof {
                                lemma_count_push_all(self.trace@, TraceEvent::SeqLookup);
                            }
                            let flow = ExecuteFlow {
                                msgs: self.msgs,
                                signer: self.signer,
                                state: ExecState::ExecSeq { fee },
                                trace: Ghost(t),
                            };
                            (flow, FlowStep::Next(BridgeRequest::AccountSequence { address: addr }))
                        },
                        Err(e) => self.close_with(
                            Err(RunnerError::DecodeError(DecodeError::ProtoDecodeError(e))),
                        ),
                    },
                }
            },
            ExecState::ExecSeq { fee } => {
                let n = match resp {
                    BridgeResponse::Number(n) => n,
                    _ => vstd::pervasive::unreached(),
                };
                let addr = self.signer.address();
                let ghost t = self.trace@.push(TraceEvent::NumLookup);
                proof {
                    lemma_count_push_all(self.trace@, TraceEvent::NumLookup);
                }
                let flow = ExecuteFlow {
                    msgs: self.msgs,
                    signer: self.signer,
                    state: ExecState::ExecNum { fee, seq: n },
                    trace: Ghost(t),
                };
                (flow, FlowStep::Next(BridgeRequest::AccountNumber { address: addr }))
            },
            ExecState::ExecNum { fee, seq } => {
                let num = match resp {
                    BridgeResponse::Number(n) => n,
                    _ => vstd::pervasive::unreached(),
                };
                let signed = sign_tx(
                    &self.msgs,
                    &self.signer.priv_key,
                    seq,
                    num,
                    "",
                    0,
                    fee.amount.denom.as_str(),
                    fee.amount.amount,
                    fee.gas_limit,
                    "osmosis-1",
                );
                match signed {
                    Ok(tx) => {
                        let encoded = encode_deliver_request(tx);
                        let request_base64 = base64_encode(&encoded);
                        let ghost t = self.trace@.push(TraceEvent::Execute);
                        proof {
                            lemma_count_push_all(self.trace@, TraceEvent::Execute);
                        }
                        let flow = ExecuteFlow {
                            msgs: self.msgs,
                            signer: self.signer,
                            state: ExecState::Executing,
                            trace: Ghost(t),
                        };
                        (flow, FlowStep::Next(BridgeRequest::Execute { request_base64 }))
                    },
                    Err(e) => {
                        let ghost t = self.trace@.push(TraceEvent::End);
                        proof {
                            lemma_count_push_all(self.trace@, TraceEvent::End);
                        }
                        let flow = ExecuteFlow {
                            msgs: self.msgs,
                            signer: self.signer,
                            state: ExecState::Closing {
                                result: Err(
                                    RunnerError::EncodeError(EncodeError::ProtoEncodeError(e)),
                                ),
                            },
                            trace: Ghost(t),
                        };
                        (flow, FlowStep::Next(BridgeRequest::EndBlock))
                    },
                }
            },
            ExecState::Executing => {
                let raw = match resp {
                    BridgeResponse::Raw(raw) => raw,
                    _ => vstd::pervasive::unreached(),
                };
                match raw {
                    RawOutcome::Error(msg) => self.close_with(
                        Err(RunnerError::ExecuteError { msg }),
                    ),
                    RawOutcome::Bytes(b) => match decode_deliver_tx(&b) {
                        Ok(v) => self.close_with(Ok(v)),
                        Err(e) => self.close_with(
                            Err(RunnerError::DecodeError(DecodeError::ProtoDecodeError(e))),
                        ),
                    },
                }
            },
            ExecState::Closing { result } => {
                let flow = ExecuteFlow {
                    msgs: self.msgs,
                    signer: self.signer,
                    state: ExecState::Finished,
                    trace: self.trace,
                };
                (flow, FlowStep::Complete(result))
            },
            ExecState::Finished => vstd::pervasive::unreached(),
        }
    }

    /// Turns toward `Closing` with the given outcome: requests the
    /// end-block that closes the bracket.
    fn close_with(self, result: RunnerResult<DeliverTxResult>) -> (r: (
        ExecuteFlow,
        FlowStep<DeliverTxResult>,
    ))
        requires
            self.wf(),
            open_bracket(self.state),
        ensures
            r.0.wf(),
            r.0.msgs == self.msgs,
            r.0.signer == self.signer,
            r.0.state == (ExecState::Closing { result }),
            asks_end(r.1),
    {
        let ghost t = self.trace@.push(TraceEvent::End);
        proof {
            lemma_count_push_all(self.trace@, TraceEvent::End);
        }
        let flow = ExecuteFlow {
            msgs: self.msgs,
            signer: self.signer,
            state: ExecState::Closing { result },
            trace: Ghost(t),
        };
        (flow, FlowStep::Next(BridgeRequest::EndBlock))
    }
}

/// Whether a step asks the driver for the sequence number of `addr`.
pub open spec fn asks_sequence<T>(step: FlowStep<T>, addr: Seq<char>) -> bool {
    step matches FlowStep::Next(BridgeRequest::AccountSequence { address }) && address@ == addr
}

/// Whether a step asks the driver for the account number of `addr`.
pub open spec fn asks_number<T>(step: FlowStep<T>, addr: Seq<char>) -> bool {
    step matches FlowStep::Next(BridgeRequest::AccountNumber { address }) && address@ == addr
}

/// Whether a step asks the driver to simulate exactly this payload.
pub open spec fn asks_simulate<T>(step: FlowStep<T>, payload: Seq<char>) -> bool {
    step matches FlowStep::Next(BridgeRequest::Simulate { tx_base64 }) && tx_base64@ == payload
}

/// Whether a step asks the driver to deliver exactly this payload.
pub open spec fn asks_execute<T>(step: FlowStep<T>, payload: Seq<char>) -> bool {
    step matches FlowStep::Next(BridgeRequest::Execute { request_base64 }) && request_base64@
        == payload
}

/// Whether a step asks the driver to close the block bracket.
pub open spec fn asks_end<T>(step: FlowStep<T>) -> bool {
    step matches FlowStep::Next(BridgeRequest::EndBlock)
}

/// Whether the flow closed its bracket over an encoding failure.
pub open spec fn closing_encode_error(s: ExecState) -> bool {
    s matches ExecState::Closing { result } && result matches Err(RunnerError::EncodeError(
        EncodeError::ProtoEncodeError(_),
    ))
}

/// Whether the flow closed its bracket over a decoding failure.
pub open spec fn closing_decode_error(s: ExecState) -> bool {
    s matches ExecState::Closing { result } && result matches Err(RunnerError::DecodeError(
        DecodeError::ProtoDecodeError(_),
    ))
}

/// Whether the flow closed its bracket over the simulator's failure
/// string, carried verbatim.
pub open spec fn closing_execute_error(s: ExecState, msg: Seq<char>) -> bool {
    s matches ExecState::Closing { result } && result matches Err(RunnerError::ExecuteError {
        msg: m,
    }) && m@ == msg
}

/// Every begin-block of a completed execute flow was answered by exactly
/// one end-block, whatever the run's outcome was.
pub proof fn lemma_block_bracket_balanced(flow: ExecuteFlow)
    requires
        flow.wf(),
        flow.state is Finished,
    ensures
        count_ev(flow.trace@, TraceEvent::Begin) == 1,
        count_ev(flow.trace@, TraceEvent::End) == 1,
{
}

/// A custom fee policy never costs a simulation: no completed or running
/// flow of a custom-fee signer ever requested one.
pub proof fn lemma_custom_fee_no_simulation(flow: ExecuteFlow)
    requires
        flow.wf(),
        flow.signer.fee_setting matches FeeSetting::Custom { .. },
    ensures
        count_ev(flow.trace@, TraceEvent::Simulate) == 0,
{
}

// ---------------------------------------------------------------------------
// Simulate flow
// ---------------------------------------------------------------------------

/// Where a simulation stands.  Simulation signs the pending messages with
/// a zero fee and asks the simulator what the run would cost; it opens no
/// block bracket of its own.
pub enum SimState {
    /// Sequence lookup sent.
    SeqLookup,
    /// Account-number lookup sent.
    NumLookup { seq: u64 },
    /// Zero-fee transaction submitted.
    Simulating,
    Finished,
}

/// One fee simulation: the messages, their signer, and where it stands.
/// Completes with the simulator's (gas wanted, gas used) pair.
pub struct SimulateFlow {
    pub msgs: Vec<AnyMsg>,
    pub signer: SigningAccount,
    pub state: SimState,
}

impl SimulateFlow {
    /// The signer's address, as the lookup requests carry it.
    pub open spec fn signer_addr(self) -> Seq<char> {
        addr_of(pubkey_of(self.signer.priv_key@), self.signer.prefix@)
    }

    /// The zero-fee transaction this simulation signs.
    pub open spec fn sim_tx(self, seq: u64, num: u64) -> Option<Seq<u8>> {
        signed_tx_of(
            any_views(self.msgs@),
            self.signer.priv_key@,
            seq,
            num,
            ""@,
            0,
            fee_denom_chars(),
            0,
            0,
            chain_id_chars(),
        )
    }

    pub open spec fn wf(self) -> bool {
        self.signer.wf()
    }

    /// Which response kind the flow is waiting for.
    pub open spec fn expects(self, resp: BridgeResponse) -> bool {
        match self.state {
            SimState::SeqLookup => resp is Number,
            SimState::NumLookup { .. } => resp is Number,
            SimState::Simulating => resp is Raw,
            SimState::Finished => false,
        }
    }

    /// Begins a simulation; the signer's current sequence number is always
    /// fetched fresh, never cached.
    pub fn start(msgs: Vec<AnyMsg>, signer: SigningAccount) -> (r: (SimulateFlow, BridgeRequest))
        requires
            signer.wf(),
        ensures
            r.0.wf(),
            r.0.state is SeqLookup,
            r.0.msgs == msgs,
            r.0.signer == signer,
            r.1 matches BridgeRequest::AccountSequence { address } && address@ == r.0.signer_addr(),
    {
        let address = signer.address();
        let flow = SimulateFlow { msgs, signer, state: SimState::SeqLookup };
        (flow, BridgeRequest::AccountSequence { address })
    }

    /// Advances the simulation with the response to its pending request.
    pub fn step(self, resp: BridgeResponse) -> (r: (SimulateFlow, FlowStep<(u64, u64)>))
        requires
            self.wf(),
            self.expects(resp),
        ensures
            r.0.wf(),
            r.0.msgs == self.msgs,
            r.0.signer == self.signer,
            self.state is SeqLookup ==> (resp matches BridgeResponse::Number(n) ==> (
            r.0.state matches SimState::NumLookup { seq } && seq == n && asks_number(
                r.1,
                self.signer_addr(),
            ))),
            self.state matches SimState::NumLookup { seq } ==> (
            resp matches BridgeResponse::Number(num) ==> match self.sim_tx(seq, num) {
                Some(tx) => asks_simulate(r.1, base64_of(tx)) && r.0.state is Simulating,
                None => r.1 matches FlowStep::Complete(res) && res matches Err(
                    RunnerError::EncodeError(EncodeError::ProtoEncodeError(_)),
                ) && r.0.state is Finished,
            }),
            self.state is Simulating ==> (resp matches BridgeResponse::Raw(raw) ==> (
            r.0.state is Finished && match raw {
                RawOutcome::Error(m) => r.1 matches FlowStep::Complete(res) && res matches Err(
                    RunnerError::ExecuteError { msg },
                ) && msg@ == m@,
                RawOutcome::Bytes(b) => match gas_info_dec(b@) {
                    Some(pair) => r.1 == FlowStep::<(u64, u64)>::Complete(Ok(pair)),
                    None => r.1 matches FlowStep::Complete(res) && res matches Err(
                        RunnerError::DecodeError(DecodeError::ProtoDecodeError(_)),
                    ),
                },
            })),
    {
        match self.state {
            SimState::SeqLookup => {
                let n = match resp {
                    BridgeResponse::Number(n) => n,
                    _ => vstd::pervasive::unreached(),
                };
                let address = self.signer.address();
                let flow = SimulateFlow {
                    msgs: self.msgs,
                    signer: self.signer,
                    state: SimState::NumLookup { seq: n },
                };
                (flow, FlowStep::Next(BridgeRequest::AccountNumber { address }))
            },
            SimState::NumLookup { seq } => {
                let num = match resp {
                    BridgeResponse::Number(n) => n,
                    _ => vstd::pervasive::unreached(),
                };
                let signed = sign_tx(
                    &self.msgs,
                    &self.signer.priv_key,
                    seq,
                    num,
                    "",
                    0,
                    "uosmo",
                    0,
                    0,
                    "osmosis-1",
                );
                match signed {
                    Ok(tx) => {
                        let tx_base64 = base64_encode(&tx);
                        let flow = SimulateFlow {
                            msgs: self.msgs,
                            signer: self.signer,
                            state: SimState::Simulating,
                        };
                        (flow, FlowStep::Next(BridgeRequest::Simulate { tx_base64 }))
                    },
                    Err(e) => {
                        let flow = SimulateFlow {
                            msgs: self.msgs,
                            signer: self.signer,
                            state: SimState::Finished,
                        };
                        (
                            flow,
                            FlowStep::Complete(
                                Err(RunnerError::EncodeError(EncodeError::ProtoEncodeError(e))),
                            ),
                        )
                    },
                }
            },
            SimState::Simulating => {
                let raw = match resp {
                    BridgeResponse::Raw(raw) => raw,
                    _ => vstd::pervasive::unreached(),
                };
                let flow = SimulateFlow {
                    msgs: self.msgs,
                    signer: self.signer,
                    state: SimState::Finished,
                };
                let out = match raw {
                    RawOutcome::Error(msg) => FlowStep::Complete(
                        Err(RunnerError::ExecuteError { msg }),
                    ),
                    RawOutcome::Bytes(b) => match decode_gas_info(&b) {
                        Ok(pair) => FlowStep::Complete(Ok(pair)),
                        Err(e) => FlowStep::Complete(
                            Err(RunnerError::DecodeError(DecodeError::ProtoDecodeError(e))),
                        ),
                    },
                };
                (flow, out)
            },
            SimState::Finished => vstd::pervasive::unreached(),
        }
    }
}

// ---------------------------------------------------------------------------
// Account initialisation flow
// ---------------------------------------------------------------------------

/// Where an account initialisation stands.  The simulator call is
/// bracketed: begin block, create the account, end block; only then is the
/// returned key material decoded.
pub enum InitState {
    /// Begin-block sent; the normalised coin payload waits to be sent.
    Opening { coins_json: Vec<u8> },
    /// Account creation sent.
    Creating,
    /// End-block sent; the key material waits to be decoded.
    Closing { key_b64: String },
    Finished,
}

/// One account initialisation: funds a fresh account with the given coins
/// and completes with its signing identity.
pub struct InitAccountFlow {
    /// The coin list as transmitted: sorted by denomination.
    pub coins: Ghost<Seq<Coin>>,
    pub state: InitState,
}

impl InitAccountFlow {
    /// Which response kind the flow is waiting for.
    pub open spec fn expects(self, resp: BridgeResponse) -> bool {
        match self.state {
            InitState::Opening { .. } => resp is Done,
            InitState::Creating => resp is Text,
            InitState::Closing { .. } => resp is Done,
            InitState::Finished => false,
        }
    }

    /// Begins an account initialisation.  The coin list is normalised —
    /// sorted by denomination, holding exactly the coins given — and
    /// encoded as the JSON payload the simulator accepts; an unsorted
    /// input is reordered, never rejected.
    pub fn start(coins: Vec<Coin>) -> (r: (InitAccountFlow, BridgeRequest))
        ensures
            coins_sorted(r.0.coins@),
            r.0.coins@.to_multiset() == coins@.to_multiset(),
            r.0.coins@.len() == coins@.len(),
            r.0.state matches InitState::Opening { coins_json } && coins_json@ == json_coins(
                r.0.coins@,
            ),
            r.1 is BeginBlock,
    {
        let sorted = sort_coins(coins);
        let coins_json = coins_to_json(&sorted);
        let ghost cs = sorted@;
        let flow = InitAccountFlow { coins: Ghost(cs), state: InitState::Opening { coins_json } };
        (flow, BridgeRequest::BeginBlock)
    }

    /// Advances the initialisation with the response to its pending
    /// request.  The block bracket closes before any decoding: even key
    /// material the harness cannot read leaves the simulator's block
    /// state machine clean.
    pub fn step(self, resp: BridgeResponse) -> (r: (InitAccountFlow, FlowStep<SigningAccount>))
        requires
            self.expects(resp),
        ensures
            r.0.coins == self.coins,
            self.state matches InitState::Opening { coins_json } ==> (
            r.1 matches FlowStep::Next(BridgeRequest::InitAccount { coins_json: sent }) && sent
                == coins_json && r.0.state is Creating),
            self.state is Creating ==> (resp matches BridgeResponse::Text(key) ==> (
            r.0.state matches InitState::Closing { key_b64 } && key_b64 == key && asks_end(r.1))),
            self.state matches InitState::Closing { key_b64 } ==> (r.0.state is Finished && (
            match base64_decoded(key_b64@) {
                None => r.1 matches FlowStep::Complete(res) && res matches Err(
                    RunnerError::DecodeError(DecodeError::Base64DecodeError(_)),
                ),
                Some(priv_key) => {
                    if key_valid(priv_key) && addr_ok(pubkey_of(priv_key), osmo_prefix()) {
                        r.1 matches FlowStep::Complete(res) && res matches Ok(acct)
                            && acct.fee_setting matches FeeSetting::Auto {
                            gas_price,
                            gas_adjustment,
                        } && acct.wf() && acct.prefix@ == osmo_prefix() && acct.priv_key@
                            == priv_key && gas_price.denom@ == fee_denom_chars()
                            && gas_price.amount == 0 && gas_adjustment.thousandths == 1200
                    } else {
                        r.1 matches FlowStep::Complete(res) && res matches Err(
                            RunnerError::DecodeError(DecodeError::SigningKeyDecodeError { .. }),
                        )
                    }
                },
            })),
    {
        match self.state {
            InitState::Opening { coins_json } => {
                let flow = InitAccountFlow { coins: self.coins, state: InitState::Creating };
                (flow, FlowStep::Next(BridgeRequest::InitAccount { coins_json }))
            },
            InitState::Creating => {
                let key = match resp {
                    BridgeResponse::Text(key) => key,
                    _ => vstd::pervasive::unreached(),
                };
                let flow = InitAccountFlow {
                    coins: self.coins,
                    state: InitState::Closing { key_b64: key },
                };
                (flow, FlowStep::Next(BridgeRequest::EndBlock))
            },
            InitState::Closing { key_b64 } => {
                let flow = InitAccountFlow { coins: self.coins, state: InitState::Finished };
                let out = match base64_decode(key_b64.as_str()) {
                    Err(e) => FlowStep::Complete(
                        Err(RunnerError::DecodeError(DecodeError::Base64DecodeError(e))),
                    ),
                    Ok(priv_key) => {
                        let fee_setting = FeeSetting::Auto {
                            gas_price: Coin::new(0, String::from_str("uosmo")),
                            gas_adjustment: default_gas_adjustment(),
                        };
                        match SigningAccount::try_new(
                            String::from_str("osmo"),
                            priv_key,
                            fee_setting,
                        ) {
                            Some(acct) => FlowStep::Complete(Ok(acct)),
                            None => FlowStep::Complete(
                                Err(
                                    RunnerError::DecodeError(
                                        DecodeError::SigningKeyDecodeError {
                                            msg: String::from_str("invalid signing key"),
                                        },
                                    ),
                                ),
                            ),
                        }
                    },
                };
                (flow, out)
            },
            InitState::Finished => vstd::pervasive::unreached(),
        }
    }
}

// ---------------------------------------------------------------------------
// The test-app handle
// ---------------------------------------------------------------------------

/// One running simulator session, named by its opaque id.  The handle
/// builds the flows and one-shot requests the embedding program drives;
/// it holds no other state — account sequences in particular are always
/// re-fetched from the simulator, which is the source of truth.
#[derive(Clone, Copy, Debug, PartialEq, Eq, Structural)]
pub struct OsmosisTestApp {
    pub id: u64,
}

impl OsmosisTestApp {
    /// Wraps an already-created session id.
    pub fn from_id(id: u64) -> (r: OsmosisTestApp)
        ensures
            r.id == id,
    {
        OsmosisTestApp { id }
    }

    /// The request that advances the chain's clock by `seconds`.
    pub fn increase_time(&self, seconds: u64) -> (r: BridgeRequest)
        ensures
            r matches BridgeRequest::IncreaseTime { seconds: s } && s == seconds,
    {
        BridgeRequest::IncreaseTime { seconds }
    }

    /// The request that whitelists `address` for force-unlock.
    pub fn whitelist_address_for_force_unlock(&self, address: String) -> (r: BridgeRequest)
        ensures
            r matches BridgeRequest::WhitelistAddressForForceUnlock { address: a } && a == address,
    {
        BridgeRequest::WhitelistAddressForForceUnlock { address }
    }

    /// Begins initialising an account funded with `coins`.
    pub fn init_account(&self, coins: Vec<Coin>) -> (r: (InitAccountFlow, BridgeRequest))
        ensures
            coins_sorted(r.0.coins@),
            r.0.coins@.to_multiset() == coins@.to_multiset(),
            r.0.coins@.len() == coins@.len(),
            r.0.state matches InitState::Opening { coins_json } && coins_json@ == json_coins(
                r.0.coins@,
            ),
            r.1 is BeginBlock,
    {
        InitAccountFlow::start(coins)
    }

    /// Begins delivering `msgs` signed by `signer`, bracketed between
    /// begin-block and end-block.
    pub fn execute_multiple_raw(&self, msgs: Vec<AnyMsg>, signer: &SigningAccount) -> (r: (
        ExecuteFlow,
        BridgeRequest,
    ))
        requires
            signer.wf(),
        ensures
            r.0.wf(),
            r.0.state is Opening,
            r.0.msgs == msgs,
            r.0.signer.prefix == signer.prefix,
            r.0.signer.priv_key@ == signer.priv_key@,
            r.0.signer.fee_setting == signer.fee_setting,
            r.1 is BeginBlock,
    {
        ExecuteFlow::start(msgs, signer.clone())
    }

    /// Begins a fee simulation of `msgs` signed by `signer`.
    pub fn simulate_tx(&self, msgs: Vec<AnyMsg>, signer: &SigningAccount) -> (r: (
        SimulateFlow,
        BridgeRequest,
    ))
        requires
            signer.wf(),
        ensures
            r.0.wf(),
            r.0.state is SeqLookup,
            r.0.msgs == msgs,
            r.0.signer.prefix == signer.prefix,
            r.0.signer.priv_key@ == signer.priv_key@,
            r.0.signer.fee_setting == signer.fee_setting,
            r.1 matches BridgeRequest::AccountSequence { address } && address@ == r.0.signer_addr(),
    {
        SimulateFlow::start(msgs, signer.clone())
    }

    /// The request that runs a typed query: the protobuf request bytes,
    /// base64-encoded, at the handler path.
    pub fn query_raw(&self, path: String, protobuf: Vec<u8>) -> (r: BridgeRequest)
        ensures
            r matches BridgeRequest::Query { path: p, request_base64: b } && p == path && b@
                == base64_of(protobuf@),
    {
        let request_base64 = base64_encode(&protobuf);
        BridgeRequest::Query { path, request_base64 }
    }
}

} // verus!
