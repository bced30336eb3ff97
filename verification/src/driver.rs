//! The block execution driver.
//!
//! The driver pulls consensus requests off an ordered channel, one at a
//! time, and never processes two units of work concurrently. For each
//! request it asks the external state transition engine and the versioned
//! store to perform a fixed, ordered sequence of calls — the request's
//! *plan* — and builds exactly one response from what they answered. The
//! process boundary executes the plan and hands the answers back inside the
//! request's [`Envelope`].
//!
//! The whole per-request behaviour is specified by the pure model
//! [`spec_step`]: what the plan is, which answers are acceptable, how the
//! store handle advances, and what the response holds. Fatal conditions are
//! kept apart from responses in the type system: a [`FatalError`] is
//! returned to the surrounding process, which must abort rather than answer,
//! since partial completion cannot be reconciled with peer replicas.

use vstd::prelude::*;
use crate::data::{
    ConsensusRequest, ConsensusRequestView, ConsensusResponse, ConsensusResponseView,
    InitChainRequest, InitChainRequestView, InitChainResponse, InitChainResponseView,
    BeginBlockRequest, DeliverTxRequest, EndBlockRequest, PrepareProposalRequest,
    ProcessProposalRequest, BeginBlockResponse, DeliverTxResponse, DeliverTxResponseView,
    EndBlockResponse, EndBlockResponseView, CommitResponse, PrepareProposalResponse,
    ProposalDecision, FatalError, EngineCall, EngineReply, EngineReplyView, Envelope,
    EnvelopeView, GenesisAppState, GenesisAppStateView, TxOutcome, TxOutcomeView, Event,
    BlockHeader,
};
use crate::log::{render_error_chain, spec_render_chain};
use crate::proposal::{pack_transactions, spec_pack};
use crate::store::{StoreModel, StoreModelView};

verus! {

// ---------------------------------------------------------------------------
// The per-request model
// ---------------------------------------------------------------------------

/// The outcome of handling one envelope: the store handle afterwards, and
/// either the response owed to the consensus engine or a fatal condition.
pub struct StepResultView {
    pub store: StoreModelView,
    pub outcome: Result<ConsensusResponseView, FatalError>,
}

/// A fatal outcome; the store handle is left as it was.
pub open spec fn fault(store: StoreModelView, f: FatalError) -> StepResultView {
    StepResultView { store: store, outcome: Result::Err(f) }
}

/// A successful outcome that leaves the store handle as it was.
pub open spec fn pass(store: StoreModelView, resp: ConsensusResponseView) -> StepResultView {
    StepResultView { store: store, outcome: Result::Ok(resp) }
}

/// The plan of a request: the engine and store calls its handler performs,
/// in order. Requests whose handling is fatal before any call — a genesis
/// payload that did not decode, a duplicate chain initialization, a proposal
/// budget that does not convert — have no plan.
pub open spec fn spec_plan(store: StoreModelView, request: ConsensusRequestView) -> Result<
    Seq<EngineCall>,
    FatalError,
> {
    match request {
        ConsensusRequestView::InitChain(r) => match r.genesis {
            Option::None => Result::Err(FatalError::MalformedGenesis),
            Option::Some(GenesisAppStateView::Checkpoint(_)) => Result::Ok(
                seq![EngineCall::ReadValidators, EngineCall::ReadRootHash],
            ),
            Option::Some(GenesisAppStateView::Content(_)) => if store.initialized() {
                Result::Err(FatalError::DuplicateGenesis)
            } else {
                Result::Ok(
                    seq![EngineCall::InitChain, EngineCall::ReadValidators, EngineCall::Commit],
                )
            },
        },
        ConsensusRequestView::BeginBlock(_) => Result::Ok(seq![EngineCall::BeginBlock]),
        ConsensusRequestView::DeliverTx(_) => Result::Ok(seq![EngineCall::DeliverTx]),
        ConsensusRequestView::EndBlock(_) => Result::Ok(
            seq![EngineCall::EndBlock, EngineCall::ReadValidators],
        ),
        ConsensusRequestView::Commit => Result::Ok(seq![EngineCall::Commit]),
        ConsensusRequestView::PrepareProposal { txs: _, max_tx_bytes } => if max_tx_bytes < 0 {
            Result::Err(FatalError::InvalidProposalBudget)
        } else {
            Result::Ok(Seq::empty())
        },
        ConsensusRequestView::ProcessProposal { txs: _ } => Result::Ok(Seq::empty()),
    }
}

/// Chain initialization.
///
/// A genesis payload that did not decode is fatal. A `Checkpoint` genesis
/// mutates nothing: the driver reads the validator set and the store's
/// current root hash and answers with them. A `Content` genesis is accepted
/// only against a store that has never committed — a duplicate
/// initialization is fatal — and runs the engine's initialization followed
/// by a full commit; the commit's hash is the genesis application hash. In
/// both variants the requested consensus parameters are echoed back, and the
/// validator set is read only after the engine has fully processed the
/// genesis content.
pub open spec fn spec_init_chain(
    store: StoreModelView,
    request: InitChainRequestView,
    replies: Seq<EngineReplyView>,
) -> StepResultView {
    match request.genesis {
        Option::None => fault(store, FatalError::MalformedGenesis),
        Option::Some(GenesisAppStateView::Checkpoint(_)) => if replies.len() == 2 {
            match (replies[0], replies[1]) {
                (
                    EngineReplyView::Validators(validators),
                    EngineReplyView::RootHash(hash),
                ) => pass(
                    store,
                    ConsensusResponseView::InitChain(
                        InitChainResponseView {
                            consensus_params: request.consensus_params,
                            validators: validators,
                            app_hash: hash,
                        },
                    ),
                ),
                _ => fault(store, FatalError::EngineProtocol),
            }
        } else {
            fault(store, FatalError::EngineProtocol)
        },
        Option::Some(GenesisAppStateView::Content(_)) => if store.initialized() {
            fault(store, FatalError::DuplicateGenesis)
        } else if replies.len() == 3 {
            match (replies[0], replies[1], replies[2]) {
                (
                    EngineReplyView::Initialized,
                    EngineReplyView::Validators(validators),
                    EngineReplyView::Committed(hash),
                ) => StepResultView {
                    store: store.committed(hash),
                    outcome: Result::Ok(
                        ConsensusResponseView::InitChain(
                            InitChainResponseView {
                                consensus_params: request.consensus_params,
                                validators: validators,
                                app_hash: hash,
                            },
                        ),
                    ),
                },
                _ => fault(store, FatalError::EngineProtocol),
            }
        } else {
            fault(store, FatalError::EngineProtocol)
        },
    }
}

/// Begin-of-block: a pure pass-through of the events the engine's hook
/// produced.
pub open spec fn spec_begin_block(
    store: StoreModelView,
    replies: Seq<EngineReplyView>,
) -> StepResultView {
    if replies.len() == 1 {
        match replies[0] {
            EngineReplyView::Events(events) => pass(
                store,
                ConsensusResponseView::BeginBlock { events: events },
            ),
            _ => fault(store, FatalError::EngineProtocol),
        }
    } else {
        fault(store, FatalError::EngineProtocol)
    }
}

/// Transaction application, the one recoverable path: a successful
/// application answers status code 0 with the events produced; a failure is
/// never propagated and never stops the block — it answers status code 1,
/// no events, and a log carrying the full rendered cause chain.
pub open spec fn spec_deliver_tx(
    store: StoreModelView,
    replies: Seq<EngineReplyView>,
) -> StepResultView {
    if replies.len() == 1 {
        match replies[0] {
            EngineReplyView::Tx(TxOutcomeView::Applied(events)) => pass(
                store,
                ConsensusResponseView::DeliverTx(
                    DeliverTxResponseView { code: 0, log: Seq::empty(), events: events },
                ),
            ),
            EngineReplyView::Tx(TxOutcomeView::Rejected(chain)) => pass(
                store,
                ConsensusResponseView::DeliverTx(
                    DeliverTxResponseView {
                        code: 1,
                        log: spec_render_chain(chain),
                        events: Seq::empty(),
                    },
                ),
            ),
            _ => fault(store, FatalError::EngineProtocol),
        }
    } else {
        fault(store, FatalError::EngineProtocol)
    }
}

/// End-of-block: the events of the engine's hook, plus the complete current
/// validator set, read strictly after the hook has finished so that no
/// stale or partially updated set can leak out. Consensus parameters are
/// never updated here.
pub open spec fn spec_end_block(
    store: StoreModelView,
    replies: Seq<EngineReplyView>,
) -> StepResultView {
    if replies.len() == 2 {
        match (replies[0], replies[1]) {
            (EngineReplyView::Events(events), EngineReplyView::Validators(validators)) => pass(
                store,
                ConsensusResponseView::EndBlock(
                    EndBlockResponseView {
                        validator_updates: validators,
                        consensus_param_updates: Option::None,
                        events: events,
                    },
                ),
            ),
            _ => fault(store, FatalError::EngineProtocol),
        }
    } else {
        fault(store, FatalError::EngineProtocol)
    }
}

/// Block commit: the engine commits its pending writes into the store; the
/// store advances by exactly one version and now carries the returned
/// application hash, which is answered with a zero retain-height.
pub open spec fn spec_commit(
    store: StoreModelView,
    replies: Seq<EngineReplyView>,
) -> StepResultView {
    if replies.len() == 1 {
        match replies[0] {
            EngineReplyView::Committed(hash) => StepResultView {
                store: store.committed(hash),
                outcome: Result::Ok(
                    ConsensusResponseView::Commit { data: hash, retain_height: 0 },
                ),
            },
            _ => fault(store, FatalError::EngineProtocol),
        }
    } else {
        fault(store, FatalError::EngineProtocol)
    }
}

/// Proposal construction: greedy, order-preserving, first-fit packing of
/// the candidates under the byte budget; a budget that does not convert to
/// an unsigned byte count is fatal. No engine call is involved.
pub open spec fn spec_prepare_proposal(
    store: StoreModelView,
    txs: Seq<Seq<u8>>,
    max_tx_bytes: i64,
    replies: Seq<EngineReplyView>,
) -> StepResultView {
    if max_tx_bytes < 0 {
        fault(store, FatalError::InvalidProposalBudget)
    } else if replies.len() == 0 {
        pass(
            store,
            ConsensusResponseView::PrepareProposal { txs: spec_pack(txs, max_tx_bytes as int) },
        )
    } else {
        fault(store, FatalError::EngineProtocol)
    }
}

/// Proposal validation: every proposal is accepted. Content validation is a
/// deliberate non-goal of this driver.
pub open spec fn spec_process_proposal(
    store: StoreModelView,
    replies: Seq<EngineReplyView>,
) -> StepResultView {
    if replies.len() == 0 {
        pass(store, ConsensusResponseView::ProcessProposal(ProposalDecision::Accept))
    } else {
        fault(store, FatalError::EngineProtocol)
    }
}

/// The complete model of handling one envelope.
pub open spec fn spec_step(store: StoreModelView, envelope: EnvelopeView) -> StepResultView {
    match envelope.request {
        ConsensusRequestView::InitChain(r) => spec_init_chain(store, r, envelope.replies),
        ConsensusRequestView::BeginBlock(_) => spec_begin_block(store, envelope.replies),
        ConsensusRequestView::DeliverTx(_) => spec_deliver_tx(store, envelope.replies),
        ConsensusRequestView::EndBlock(_) => spec_end_block(store, envelope.replies),
        ConsensusRequestView::Commit => spec_commit(store, envelope.replies),
        ConsensusRequestView::PrepareProposal { txs, max_tx_bytes } => spec_prepare_proposal(
            store,
            txs,
            max_tx_bytes,
            envelope.replies,
        ),
        ConsensusRequestView::ProcessProposal { txs: _ } => spec_process_proposal(
            store,
            envelope.replies,
        ),
    }
}

/// How an executable handler result matches a modelled outcome: same
/// success-or-fatal verdict, the same fatal condition, and a response whose
/// abstract view is the modelled response.
pub open spec fn outcome_matches(
    r: Result<ConsensusResponse, FatalError>,
    modelled: Result<ConsensusResponseView, FatalError>,
) -> bool {
    match (r, modelled) {
        (Result::Ok(resp), Result::Ok(v)) => resp@ == v,
        (Result::Err(e), Result::Err(f)) => e == f,
        _ => false,
    }
}

// ---------------------------------------------------------------------------
// The dispatch model
// ---------------------------------------------------------------------------

/// The outcome of dispatching a sequence of envelopes: the store handle
/// afterwards, the responses produced — one per envelope, in envelope order
/// — and, if a fatal condition was hit, that condition; dispatch stops
/// there.
pub struct RunResultView {
    pub store: StoreModelView,
    pub responses: Seq<ConsensusResponseView>,
    pub fault: Option<FatalError>,
}

/// The model of the dispatch loop: envelopes are handled strictly in order,
/// each against the store state the previous one left behind, until all are
/// answered or a fatal condition stops the process.
pub open spec fn spec_run(store: StoreModelView, envelopes: Seq<EnvelopeView>) -> RunResultView
    decreases envelopes.len(),
{
    if envelopes.len() == 0 {
        RunResultView { store: store, responses: Seq::empty(), fault: Option::None }
    } else {
        let first = spec_step(store, envelopes[0]);
        match first.outcome {
            Result::Err(f) => RunResultView {
                store: first.store,
                responses: Seq::empty(),
                fault: Option::Some(f),
            },
            Result::Ok(resp) => {
                let rest = spec_run(first.store, envelopes.drop_first());
                RunResultView {
                    store: rest.store,
                    responses: seq![resp] + rest.responses,
                    fault: rest.fault,
                }
            },
        }
    }
}

/// Maps a sequence of envelopes to its abstract view.
pub open spec fn envelopes_view(envelopes: Seq<Envelope>) -> Seq<EnvelopeView> {
    envelopes.map_values(|e: Envelope| e@)
}

/// Maps a sequence of responses to its abstract view.
pub open spec fn responses_view(responses: Seq<ConsensusResponse>) -> Seq<ConsensusResponseView> {
    responses.map_values(|r: ConsensusResponse| r@)
}

// ---------------------------------------------------------------------------
// The driver
// ---------------------------------------------------------------------------

/// The block execution driver: one long-lived instance per process, wrapping
/// the handle on the versioned store. The state transition engine and the
/// store live outside the process's verified core; the driver names the
/// calls to perform through [`Consensus::plan`] and consumes their answers
/// through [`Consensus::step`].
pub struct Consensus {
    storage: StoreModel,
}

impl View for Consensus {
    type V = StoreModelView;

    closed spec fn view(&self) -> StoreModelView {
        self.storage@
    }
}

impl Consensus {
    /// Creates the driver around a store handle.
    pub fn new(storage: StoreModel) -> (c: Consensus)
        ensures
            c@ == storage@,
    {
        Consensus { storage }
    }

    /// The engine and store calls the handler of `request` performs, in
    /// order, or the fatal condition that forbids handling it.
    pub fn plan(&self, request: &ConsensusRequest) -> (r: Result<Vec<EngineCall>, FatalError>)
        ensures
            match (r, spec_plan(self@, request@)) {
                (Result::Ok(calls), Result::Ok(modelled)) => calls@ == modelled,
                (Result::Err(e), Result::Err(f)) => e == f,
                _ => false,
            },
    {
        match request {
            ConsensusRequest::InitChain(r) => match &r.genesis {
                Option::None => Result::Err(FatalError::MalformedGenesis),
                Option::Some(GenesisAppState::Checkpoint(_)) => {
                    let mut calls: Vec<EngineCall> = Vec::new();
                    calls.push(EngineCall::ReadValidators);
                    calls.push(EngineCall::ReadRootHash);
                    proof {
                        assert(calls@ =~= seq![
                            EngineCall::ReadValidators,
                            EngineCall::ReadRootHash,
                        ]);
                    }
                    Result::Ok(calls)
                },
                Option::Some(GenesisAppState::Content(_)) => {
                    if self.storage.initialized() {
                        Result::Err(FatalError::DuplicateGenesis)
                    } else {
                        let mut calls: Vec<EngineCall> = Vec::new();
                        calls.push(EngineCall::InitChain);
                        calls.push(EngineCall::ReadValidators);
                        calls.push(EngineCall::Commit);
                        proof {
                            assert(calls@ =~= seq![
                                EngineCall::InitChain,
                                EngineCall::ReadValidators,
                                EngineCall::Commit,
                            ]);
                        }
                        Result::Ok(calls)
                    }
                },
            },
            ConsensusRequest::BeginBlock(_) => {
                let mut calls: Vec<EngineCall> = Vec::new();
                calls.push(EngineCall::BeginBlock);
                proof {
                    assert(calls@ =~= seq![EngineCall::BeginBlock]);
                }
                Result::Ok(calls)
            },
            ConsensusRequest::DeliverTx(_) => {
                let mut calls: Vec<EngineCall> = Vec::new();
                calls.push(EngineCall::DeliverTx);
                proof {
                    assert(calls@ =~= seq![EngineCall::DeliverTx]);
                }
                Result::Ok(calls)
            },
            ConsensusRequest::EndBlock(_) => {
                let mut calls: Vec<EngineCall> = Vec::new();
                calls.push(EngineCall::EndBlock);
                calls.push(EngineCall::ReadValidators);
                proof {
                    assert(calls@ =~= seq![EngineCall::EndBlock, EngineCall::ReadValidators]);
                }
                Result::Ok(calls)
            },
            ConsensusRequest::Commit => {
                let mut calls: Vec<EngineCall> = Vec::new();
                calls.push(EngineCall::Commit);
                proof {
                    assert(calls@ =~= seq![EngineCall::Commit]);
                }
                Result::Ok(calls)
            },
            ConsensusRequest::PrepareProposal(r) => {
                if r.max_tx_bytes < 0 {
                    Result::Err(FatalError::InvalidProposalBudget)
                } else {
                    let calls: Vec<EngineCall> = Vec::new();
                    proof {
                        assert(calls@ =~= Seq::<EngineCall>::empty());
                    }
                    Result::Ok(calls)
                }
            },
            ConsensusRequest::ProcessProposal(_) => {
                let calls: Vec<EngineCall> = Vec::new();
                proof {
                    assert(calls@ =~= Seq::<EngineCall>::empty());
                }
                Result::Ok(calls)
            },
        }
    }

    /// Handles one unit of work to completion: consumes the envelope's
    /// request together with the engine's answers to the request's plan, in
    /// plan order, and produces the one response owed to the consensus
    /// engine — or the fatal condition on which the process must abort.
    pub fn step(&mut self, envelope: Envelope) -> (r: Result<ConsensusResponse, FatalError>)
        ensures
            final(self)@ == spec_step(old(self)@, envelope@).store,
            outcome_matches(r, spec_step(old(self)@, envelope@).outcome),
    {
        let Envelope { request, replies } = envelope;
        match request {
            ConsensusRequest::InitChain(req) => self.handle_init_chain(req, replies),
            ConsensusRequest::BeginBlock(req) => self.handle_begin_block(req, replies),
            ConsensusRequest::DeliverTx(req) => self.handle_deliver_tx(req, replies),
            ConsensusRequest::EndBlock(req) => self.handle_end_block(req, replies),
            ConsensusRequest::Commit => self.handle_commit(replies),
            ConsensusRequest::PrepareProposal(req) => self.handle_prepare_proposal(req, replies),
            ConsensusRequest::ProcessProposal(req) => self.handle_process_proposal(req, replies),
        }
    }

    /// Chain initialization; see [`spec_init_chain`].
    fn handle_init_chain(&mut self, request: InitChainRequest, replies: Vec<EngineReply>) -> (r:
        Result<ConsensusResponse, FatalError>)
        ensures
            final(self)@ == spec_init_chain(
                old(self)@,
                request@,
                replies@.map_values(|x: EngineReply| x@),
            ).store,
            outcome_matches(
                r,
                spec_init_chain(
                    old(self)@,
                    request@,
                    replies@.map_values(|x: EngineReply| x@),
                ).outcome,
            ),
    {
        let ghost replies_v = replies@.map_values(|x: EngineReply| x@);
        let InitChainRequest { genesis, consensus_params } = request;
        match genesis {
            Option::None => Result::Err(FatalError::MalformedGenesis),
            Option::Some(GenesisAppState::Checkpoint(_)) => {
                let mut replies = replies;
                if replies.len() == 2 {
                    let reply1 = replies.pop().unwrap();
                    let reply0 = replies.pop().unwrap();
                    proof {
                        assert(reply0@ == replies_v[0]);
                        assert(reply1@ == replies_v[1]);
                    }
                    match (reply0, reply1) {
                        (EngineReply::Validators(validators), EngineReply::RootHash(hash)) => {
                            Result::Ok(
                                ConsensusResponse::InitChain(
                                    InitChainResponse {
                                        consensus_params,
                                        validators,
                                        app_hash: hash,
                                    },
                                ),
                            )
                        },
                        _ => Result::Err(FatalError::EngineProtocol),
                    }
                } else {
                    Result::Err(FatalError::EngineProtocol)
                }
            },
            Option::Some(GenesisAppState::Content(_)) => {
                if self.storage.initialized() {
                    Result::Err(FatalError::DuplicateGenesis)
                } else {
                    let mut replies = replies;
                    if replies.len() == 3 {
                        let reply2 = replies.pop().unwrap();
                        let reply1 = replies.pop().unwrap();
                        let reply0 = replies.pop().unwrap();
                        proof {
                            assert(reply0@ == replies_v[0]);
                            assert(reply1@ == replies_v[1]);
                            assert(reply2@ == replies_v[2]);
                        }
                        match (reply0, reply1, reply2) {
                            (
                                EngineReply::Initialized,
                                EngineReply::Validators(validators),
                                EngineReply::Committed(hash),
                            ) => {
                                let committed_hash = hash.clone();
                                proof {
                                    assert(committed_hash@ =~= hash@);
                                }
                                self.storage.record_commit(committed_hash);
                                Result::Ok(
                                    ConsensusResponse::InitChain(
                                        InitChainResponse {
                                            consensus_params,
                                            validators,
                                            app_hash: hash,
                                        },
                                    ),
                                )
                            },
                            _ => Result::Err(FatalError::EngineProtocol),
                        }
                    } else {
                        Result::Err(FatalError::EngineProtocol)
                    }
                }
            },
        }
    }

    /// Begin-of-block; see [`spec_begin_block`].
    fn handle_begin_block(&mut self, _request: BeginBlockRequest, replies: Vec<EngineReply>) -> (r:
        Result<ConsensusResponse, FatalError>)
        ensures
            final(self)@ == old(self)@,
            outcome_matches(
                r,
                spec_begin_block(old(self)@, replies@.map_values(|x: EngineReply| x@)).outcome,
            ),
    {
        let ghost replies_v = replies@.map_values(|x: EngineReply| x@);
        let mut replies = replies;
        if replies.len() == 1 {
            let reply0 = replies.pop().unwrap();
            proof {
                assert(reply0@ == replies_v[0]);
            }
            match reply0 {
                EngineReply::Events(events) => Result::Ok(
                    ConsensusResponse::BeginBlock(BeginBlockResponse { events }),
                ),
                _ => Result::Err(FatalError::EngineProtocol),
            }
        } else {
            Result::Err(FatalError::EngineProtocol)
        }
    }

    /// Transaction application; see [`spec_deliver_tx`]. The one handler
    /// where failure is recoverable: it is converted into a response, never
    /// propagated, and leaves the driver ready for the next request.
    fn handle_deliver_tx(&mut self, _request: DeliverTxRequest, replies: Vec<EngineReply>) -> (r:
        Result<ConsensusResponse, FatalError>)
        ensures
            final(self)@ == old(self)@,
            outcome_matches(
                r,
                spec_deliver_tx(old(self)@, replies@.map_values(|x: EngineReply| x@)).outcome,
            ),
    {
        let ghost replies_v = replies@.map_values(|x: EngineReply| x@);
        let mut replies = replies;
        if replies.len() == 1 {
            let reply0 = replies.pop().unwrap();
            proof {
                assert(reply0@ == replies_v[0]);
            }
            match reply0 {
                EngineReply::Tx(TxOutcome::Applied(events)) => Result::Ok(
                    ConsensusResponse::DeliverTx(
                        DeliverTxResponse { code: 0, log: String::new(), events },
                    ),
                ),
                EngineReply::Tx(TxOutcome::Rejected(chain)) => {
                    let log = render_error_chain(&chain);
                    let events: Vec<Event> = Vec::new();
                    proof {
                        assert(events@.map_values(|e: Event| e@) =~= Seq::<
                            crate::data::EventView,
                        >::empty());
                    }
                    Result::Ok(
                        ConsensusResponse::DeliverTx(DeliverTxResponse { code: 1, log, events }),
                    )
                },
                _ => Result::Err(FatalError::EngineProtocol),
            }
        } else {
            Result::Err(FatalError::EngineProtocol)
        }
    }

    /// End-of-block; see [`spec_end_block`].
    fn handle_end_block(&mut self, _request: EndBlockRequest, replies: Vec<EngineReply>) -> (r:
        Result<ConsensusResponse, FatalError>)
        ensures
            final(self)@ == old(self)@,
            outcome_matches(
                r,
                spec_end_block(old(self)@, replies@.map_values(|x: EngineReply| x@)).outcome,
            ),
    {
        let ghost replies_v = replies@.map_values(|x: EngineReply| x@);
        let mut replies = replies;
        if replies.len() == 2 {
            let reply1 = replies.pop().unwrap();
            let reply0 = replies.pop().unwrap();
            proof {
                assert(reply0@ == replies_v[0]);
                assert(reply1@ == replies_v[1]);
            }
            match (reply0, reply1) {
                (EngineReply::Events(events), EngineReply::Validators(validators)) => Result::Ok(
                    ConsensusResponse::EndBlock(
                        EndBlockResponse {
                            validator_updates: validators,
                            consensus_param_updates: Option::None,
                            events,
                        },
                    ),
                ),
                _ => Result::Err(FatalError::EngineProtocol),
            }
        } else {
            Result::Err(FatalError::EngineProtocol)
        }
    }

    /// Block commit; see [`spec_commit`].
    fn handle_commit(&mut self, replies: Vec<EngineReply>) -> (r: Result<
        ConsensusResponse,
        FatalError,
    >)
        ensures
            final(self)@ == spec_commit(
                old(self)@,
                replies@.map_values(|x: EngineReply| x@),
            ).store,
            outcome_matches(
                r,
                spec_commit(old(self)@, replies@.map_values(|x: EngineReply| x@)).outcome,
            ),
    {
        let ghost replies_v = replies@.map_values(|x: EngineReply| x@);
        let mut replies = replies;
        if replies.len() == 1 {
            let reply0 = replies.pop().unwrap();
            proof {
                assert(reply0@ == replies_v[0]);
            }
            match reply0 {
                EngineReply::Committed(hash) => {
                    let committed_hash = hash.clone();
                    proof {
                        assert(committed_hash@ =~= hash@);
                    }
                    self.storage.record_commit(committed_hash);
                    Result::Ok(
                        ConsensusResponse::Commit(CommitResponse { data: hash, retain_height: 0 }),
                    )
                },
                _ => Result::Err(FatalError::EngineProtocol),
            }
        } else {
            Result::Err(FatalError::EngineProtocol)
        }
    }

    /// Proposal construction; see [`spec_prepare_proposal`].
    fn handle_prepare_proposal(
        &mut self,
        request: PrepareProposalRequest,
        replies: Vec<EngineReply>,
    ) -> (r: Result<ConsensusResponse, FatalError>)
        ensures
            final(self)@ == old(self)@,
            outcome_matches(
                r,
                spec_prepare_proposal(
                    old(self)@,
                    crate::data::bytes_seq_view(request.txs@),
                    request.max_tx_bytes,
                    replies@.map_values(|x: EngineReply| x@),
                ).outcome,
            ),
    {
        let PrepareProposalRequest { txs, max_tx_bytes } = request;
        if max_tx_bytes < 0 {
            Result::Err(FatalError::InvalidProposalBudget)
        } else if replies.len() == 0 {
            let packed = pack_transactions(txs, max_tx_bytes as u64);
            Result::Ok(ConsensusResponse::PrepareProposal(PrepareProposalResponse { txs: packed }))
        } else {
            Result::Err(FatalError::EngineProtocol)
        }
    }

    /// Proposal validation; see [`spec_process_proposal`].
    fn handle_process_proposal(
        &mut self,
        _request: ProcessProposalRequest,
        replies: Vec<EngineReply>,
    ) -> (r: Result<ConsensusResponse, FatalError>)
        ensures
            final(self)@ == old(self)@,
            outcome_matches(
                r,
                spec_process_proposal(
                    old(self)@,
                    replies@.map_values(|x: EngineReply| x@),
                ).outcome,
            ),
    {
        if replies.len() == 0 {
            Result::Ok(ConsensusResponse::ProcessProposal(ProposalDecision::Accept))
        } else {
            Result::Err(FatalError::EngineProtocol)
        }
    }

    /// The dispatch loop: handles the envelopes strictly in order, sending
    /// each response before the next envelope is taken up, and stops at the
    /// first fatal condition, which is returned for the surrounding process
    /// to abort on.
    pub fn run(&mut self, envelopes: Vec<Envelope>) -> (r: (
        Vec<ConsensusResponse>,
        Option<FatalError>,
    ))
        ensures
            final(self)@ == spec_run(old(self)@, envelopes_view(envelopes@)).store,
            responses_view(r.0@) == spec_run(old(self)@, envelopes_view(envelopes@)).responses,
            r.1 == spec_run(old(self)@, envelopes_view(envelopes@)).fault,
    {
        let ghost all = envelopes_view(envelopes@);
        let ghost start = self@;
        let mut remaining = envelopes;
        let mut responses: Vec<ConsensusResponse> = Vec::new();
        let mut fatal: Option<FatalError> = Option::None;
        while remaining.len() > 0 && fatal.is_none()
            invariant
                fatal is None ==> {
                    let rest = spec_run(self@, envelopes_view(remaining@));
                    &&& spec_run(start, all).store == rest.store
                    &&& spec_run(start, all).responses == responses_view(responses@)
                        + rest.responses
                    &&& spec_run(start, all).fault == rest.fault
                },
                fatal matches Option::Some(f) ==> {
                    &&& spec_run(start, all).store == self@
                    &&& spec_run(start, all).responses == responses_view(responses@)
                    &&& spec_run(start, all).fault == Option::Some(f)
                },
            decreases remaining@.len() + (if fatal is None { 1int } else { 0int }),
        {
            let ghost remaining_v = envelopes_view(remaining@);
            let envelope = remaining.remove(0);
            proof {
                assert(envelope@ == remaining_v[0]);
                assert(envelopes_view(remaining@) =~= remaining_v.drop_first());
            }
            match self.step(envelope) {
                Result::Ok(resp) => {
                    proof {
                        assert(responses_view(responses@.push(resp)) =~= responses_view(
                            responses@,
                        ).push(resp@));
                        assert(responses_view(responses@) + (seq![resp@] + spec_run(
                            self@,
                            remaining_v.drop_first(),
                        ).responses) =~= responses_view(responses@).push(resp@) + spec_run(
                            self@,
                            remaining_v.drop_first(),
                        ).responses);
                    }
                    responses.push(resp);
                },
                Result::Err(f) => {
                    proof {
                        assert(spec_run(self@, remaining_v).responses =~= Seq::<
                            ConsensusResponseView,
                        >::empty());
                        assert(responses_view(responses@) + Seq::<
                            ConsensusResponseView,
                        >::empty() =~= responses_view(responses@));
                    }
                    fatal = Option::Some(f);
                },
            }
        }
        proof {
            if fatal is None {
                assert(envelopes_view(remaining@).len() == 0);
                assert(spec_run(self@, envelopes_view(remaining@)).responses =~= Seq::<
                    ConsensusResponseView,
                >::empty());
                assert(responses_view(responses@) + Seq::<ConsensusResponseView>::empty()
                    =~= responses_view(responses@));
            }
        }
        (responses, fatal)
    }
}

} // verus!
