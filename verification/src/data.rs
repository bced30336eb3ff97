//! Plain data carried between the consensus engine, the driver, and the
//! external state transition engine.
//!
//! Every executable type has an abstract view (`...View`) over mathematical
//! sequences; contracts and the driver's specification model speak over those
//! views.

use vstd::prelude::*;

verus! {

// ---------------------------------------------------------------------------
// Abstract views
// ---------------------------------------------------------------------------

/// Abstract view of one key/value attribute of a structured event.
pub struct EventAttributeView {
    pub key: Seq<char>,
    pub value: Seq<char>,
}

/// Abstract view of a structured event emitted by the state transition engine.
pub struct EventView {
    pub kind: Seq<char>,
    pub attributes: Seq<EventAttributeView>,
}

/// Abstract view of one entry of the validator set: an identity key and its
/// voting power.
pub struct ValidatorUpdateView {
    pub pub_key: Seq<u8>,
    pub power: u64,
}

/// Abstract view of the genesis application state.
pub enum GenesisAppStateView {
    /// Resume from a previously agreed state; the payload is the expected
    /// application hash.
    Checkpoint(Seq<u8>),
    /// Bootstrap fresh state from an initial configuration, carried as opaque
    /// bytes that only the state transition engine interprets.
    Content(Seq<u8>),
}

// ---------------------------------------------------------------------------
// Events and validators
// ---------------------------------------------------------------------------

/// One key/value attribute of a structured event.
#[derive(Debug, Clone, PartialEq, Eq)]
pub struct EventAttribute {
    pub key: String,
    pub value: String,
}

impl View for EventAttribute {
    type V = EventAttributeView;

    open spec fn view(&self) -> EventAttributeView {
        EventAttributeView { key: self.key@, value: self.value@ }
    }
}

/// A structured event emitted by the state transition engine during block
/// processing, passed back to the consensus engine unchanged.
#[derive(Debug, Clone, PartialEq, Eq)]
pub struct Event {
    pub kind: String,
    pub attributes: Vec<EventAttribute>,
}

impl View for Event {
    type V = EventView;

    open spec fn view(&self) -> EventView {
        EventView {
            kind: self.kind@,
            attributes: self.attributes@.map_values(|a: EventAttribute| a@),
        }
    }
}

/// One entry of the complete validator set returned at the end of a block.
#[derive(Debug, Clone, PartialEq, Eq)]
pub struct ValidatorUpdate {
    /// Identity key of the validator, as opaque key bytes.
    pub pub_key: Vec<u8>,
    /// Voting power assigned to that key.
    pub power: u64,
}

impl View for ValidatorUpdate {
    type V = ValidatorUpdateView;

    open spec fn view(&self) -> ValidatorUpdateView {
        ValidatorUpdateView { pub_key: self.pub_key@, power: self.power }
    }
}

/// Maps a sequence of events to its abstract view.
pub open spec fn events_view(events: Seq<Event>) -> Seq<EventView> {
    events.map_values(|e: Event| e@)
}

/// Maps a sequence of validator-set entries to its abstract view.
pub open spec fn validators_view(validators: Seq<ValidatorUpdate>) -> Seq<ValidatorUpdateView> {
    validators.map_values(|v: ValidatorUpdate| v@)
}

/// Maps a sequence of byte strings to its abstract view.
pub open spec fn bytes_seq_view(txs: Seq<Vec<u8>>) -> Seq<Seq<u8>> {
    txs.map_values(|t: Vec<u8>| t@)
}

// ---------------------------------------------------------------------------
// Error cause chains
// ---------------------------------------------------------------------------

/// The cause chain of a recoverable transaction failure: the top-level
/// message first, followed by the messages of the underlying causes.
///
/// A failure always carries at least one message, and the top-level message is
/// never empty; the boundary that converts an engine error into an
/// `ErrorChain` is responsible for upholding this.
#[derive(Debug, Clone, PartialEq, Eq)]
pub struct ErrorChain {
    pub messages: Vec<String>,
}

impl View for ErrorChain {
    type V = Seq<Seq<char>>;

    open spec fn view(&self) -> Seq<Seq<char>> {
        self.messages@.map_values(|m: String| m@)
    }
}

impl ErrorChain {
    /// A well-formed chain has at least one message and a non-empty
    /// top-level message.
    pub open spec fn wf(&self) -> bool {
        self@.len() >= 1 && self@[0].len() >= 1
    }
}

// ---------------------------------------------------------------------------
// Genesis state
// ---------------------------------------------------------------------------

/// The genesis application state, as decoded from the raw genesis payload by
/// the process boundary.
#[derive(Debug, Clone, PartialEq, Eq)]
pub enum GenesisAppState {
    /// Resume from a previously agreed state; the payload is the expected
    /// application hash.
    Checkpoint(Vec<u8>),
    /// Bootstrap fresh state from an initial configuration. The configuration
    /// bytes are opaque to the driver and interpreted only by the state
    /// transition engine.
    Content(Vec<u8>),
}

impl View for GenesisAppState {
    type V = GenesisAppStateView;

    open spec fn view(&self) -> GenesisAppStateView {
        match self {
            GenesisAppState::Checkpoint(h) => GenesisAppStateView::Checkpoint(h@),
            GenesisAppState::Content(c) => GenesisAppStateView::Content(c@),
        }
    }
}

/// Abstract view of an optional genesis state, `None` standing for a genesis
/// payload that did not decode.
pub open spec fn genesis_view(genesis: Option<GenesisAppState>) -> Option<GenesisAppStateView> {
    match genesis {
        Option::Some(g) => Option::Some(g@),
        Option::None => Option::None,
    }
}

// ---------------------------------------------------------------------------
// Block headers
// ---------------------------------------------------------------------------

/// The part of a block header the driver carries to the state transition
/// engine's begin-of-block hook.
#[derive(Debug, Clone, Copy, PartialEq, Eq, Structural)]
pub struct BlockHeader {
    /// Block counter assigned by the consensus engine.
    pub height: u64,
    /// Block time, in nanoseconds since the Unix epoch.
    pub time_unix_nanos: i64,
}

// ---------------------------------------------------------------------------
// Consensus requests
// ---------------------------------------------------------------------------

/// Chain initialization request.
#[derive(Debug)]
pub struct InitChainRequest {
    /// The decoded genesis application state; `None` records that the raw
    /// genesis payload did not decode, which the driver treats as fatal.
    pub genesis: Option<GenesisAppState>,
    /// Consensus parameters requested by the consensus engine, carried as
    /// opaque bytes and echoed back in the response.
    pub consensus_params: Vec<u8>,
}

/// Begin-of-block request.
#[derive(Debug)]
pub struct BeginBlockRequest {
    pub header: BlockHeader,
}

/// One raw transaction to apply to the working state.
#[derive(Debug)]
pub struct DeliverTxRequest {
    pub tx: Vec<u8>,
}

/// End-of-block request.
#[derive(Debug)]
pub struct EndBlockRequest {
    pub height: u64,
}

/// Proposal construction request: candidate transactions in order, and the
/// maximum total byte budget of the proposal.
#[derive(Debug)]
pub struct PrepareProposalRequest {
    pub txs: Vec<Vec<u8>>,
    pub max_tx_bytes: i64,
}

/// Proposal validation request.
#[derive(Debug)]
pub struct ProcessProposalRequest {
    pub txs: Vec<Vec<u8>>,
}

/// A consensus engine request, one variant per consensus call.
#[derive(Debug)]
pub enum ConsensusRequest {
    InitChain(InitChainRequest),
    BeginBlock(BeginBlockRequest),
    DeliverTx(DeliverTxRequest),
    EndBlock(EndBlockRequest),
    Commit,
    PrepareProposal(PrepareProposalRequest),
    ProcessProposal(ProcessProposalRequest),
}

/// Abstract view of a chain initialization request.
pub struct InitChainRequestView {
    pub genesis: Option<GenesisAppStateView>,
    pub consensus_params: Seq<u8>,
}

impl View for InitChainRequest {
    type V = InitChainRequestView;

    open spec fn view(&self) -> InitChainRequestView {
        InitChainRequestView {
            genesis: genesis_view(self.genesis),
            consensus_params: self.consensus_params@,
        }
    }
}

/// Abstract view of a consensus engine request.
pub enum ConsensusRequestView {
    InitChain(InitChainRequestView),
    BeginBlock(BlockHeader),
    DeliverTx(Seq<u8>),
    EndBlock(u64),
    Commit,
    PrepareProposal { txs: Seq<Seq<u8>>, max_tx_bytes: i64 },
    ProcessProposal { txs: Seq<Seq<u8>> },
}

impl View for ConsensusRequest {
    type V = ConsensusRequestView;

    open spec fn view(&self) -> ConsensusRequestView {
        match self {
            ConsensusRequest::InitChain(r) => ConsensusRequestView::InitChain(r@),
            ConsensusRequest::BeginBlock(r) => ConsensusRequestView::BeginBlock(r.header),
            ConsensusRequest::DeliverTx(r) => ConsensusRequestView::DeliverTx(r.tx@),
            ConsensusRequest::EndBlock(r) => ConsensusRequestView::EndBlock(r.height),
            ConsensusRequest::Commit => ConsensusRequestView::Commit,
            ConsensusRequest::PrepareProposal(r) => ConsensusRequestView::PrepareProposal {
                txs: bytes_seq_view(r.txs@),
                max_tx_bytes: r.max_tx_bytes,
            },
            ConsensusRequest::ProcessProposal(r) => ConsensusRequestView::ProcessProposal {
                txs: bytes_seq_view(r.txs@),
            },
        }
    }
}

// ---------------------------------------------------------------------------
// Consensus responses
// ---------------------------------------------------------------------------

/// Response to chain initialization.
#[derive(Debug)]
pub struct InitChainResponse {
    /// The consensus parameters of the request, echoed back.
    pub consensus_params: Vec<u8>,
    /// The complete initial validator set, read from the state transition
    /// engine.
    pub validators: Vec<ValidatorUpdate>,
    /// The genesis application hash.
    pub app_hash: Vec<u8>,
}

/// Response to the begin-of-block hook.
#[derive(Debug)]
pub struct BeginBlockResponse {
    pub events: Vec<Event>,
}

/// Response to one transaction application.
#[derive(Debug)]
pub struct DeliverTxResponse {
    /// Status code: 0 on success, 1 on a recoverable failure.
    pub code: u32,
    /// Empty on success; on failure, the rendered cause chain of the error.
    pub log: String,
    /// The events produced by a successful application; empty on failure.
    pub events: Vec<Event>,
}

/// Response to the end-of-block hook.
#[derive(Debug)]
pub struct EndBlockResponse {
    /// The complete validator set with voting power, replacing the consensus
    /// engine's previous view of the set.
    pub validator_updates: Vec<ValidatorUpdate>,
    /// The driver never updates consensus parameters at end-of-block.
    pub consensus_param_updates: Option<Vec<u8>>,
    pub events: Vec<Event>,
}

/// Response to a block commit.
#[derive(Debug)]
pub struct CommitResponse {
    /// The application hash of the committed state.
    pub data: Vec<u8>,
    /// Historical pruning hint; the driver always returns 0 (keep everything).
    pub retain_height: u64,
}

/// Response to proposal construction: the chosen subsequence of candidates.
#[derive(Debug)]
pub struct PrepareProposalResponse {
    pub txs: Vec<Vec<u8>>,
}

/// Verdict on a proposed block.
#[derive(Debug, Clone, Copy, PartialEq, Eq, Structural)]
pub enum ProposalDecision {
    Accept,
    Reject,
}

/// A response to the consensus engine, matching the request variant.
#[derive(Debug)]
pub enum ConsensusResponse {
    InitChain(InitChainResponse),
    BeginBlock(BeginBlockResponse),
    DeliverTx(DeliverTxResponse),
    EndBlock(EndBlockResponse),
    Commit(CommitResponse),
    PrepareProposal(PrepareProposalResponse),
    ProcessProposal(ProposalDecision),
}

/// Abstract view of a chain initialization response.
pub struct InitChainResponseView {
    pub consensus_params: Seq<u8>,
    pub validators: Seq<ValidatorUpdateView>,
    pub app_hash: Seq<u8>,
}

impl View for InitChainResponse {
    type V = InitChainResponseView;

    open spec fn view(&self) -> InitChainResponseView {
        InitChainResponseView {
            consensus_params: self.consensus_params@,
            validators: validators_view(self.validators@),
            app_hash: self.app_hash@,
        }
    }
}

/// Abstract view of a transaction application response.
pub struct DeliverTxResponseView {
    pub code: u32,
    pub log: Seq<char>,
    pub events: Seq<EventView>,
}

impl View for DeliverTxResponse {
    type V = DeliverTxResponseView;

    open spec fn view(&self) -> DeliverTxResponseView {
        DeliverTxResponseView {
            code: self.code,
            log: self.log@,
            events: events_view(self.events@),
        }
    }
}

/// Abstract view of an end-of-block response.
pub struct EndBlockResponseView {
    pub validator_updates: Seq<ValidatorUpdateView>,
    pub consensus_param_updates: Option<Seq<u8>>,
    pub events: Seq<EventView>,
}

impl View for EndBlockResponse {
    type V = EndBlockResponseView;

    open spec fn view(&self) -> EndBlockResponseView {
        EndBlockResponseView {
            validator_updates: validators_view(self.validator_updates@),
            consensus_param_updates: match &self.consensus_param_updates {
                Option::Some(p) => Option::Some(p@),
                Option::None => Option::None,
            },
            events: events_view(self.events@),
        }
    }
}

/// Abstract view of a consensus response.
pub enum ConsensusResponseView {
    InitChain(InitChainResponseView),
    BeginBlock { events: Seq<EventView> },
    DeliverTx(DeliverTxResponseView),
    EndBlock(EndBlockResponseView),
    Commit { data: Seq<u8>, retain_height: u64 },
    PrepareProposal { txs: Seq<Seq<u8>> },
    ProcessProposal(ProposalDecision),
}

impl View for ConsensusResponse {
    type V = ConsensusResponseView;

    open spec fn view(&self) -> ConsensusResponseView {
        match self {
            ConsensusResponse::InitChain(r) => ConsensusResponseView::InitChain(r@),
            ConsensusResponse::BeginBlock(r) => ConsensusResponseView::BeginBlock {
                events: events_view(r.events@),
            },
            ConsensusResponse::DeliverTx(r) => ConsensusResponseView::DeliverTx(r@),
            ConsensusResponse::EndBlock(r) => ConsensusResponseView::EndBlock(r@),
            ConsensusResponse::Commit(r) => ConsensusResponseView::Commit {
                data: r.data@,
                retain_height: r.retain_height,
            },
            ConsensusResponse::PrepareProposal(r) => ConsensusResponseView::PrepareProposal {
                txs: bytes_seq_view(r.txs@),
            },
            ConsensusResponse::ProcessProposal(d) => ConsensusResponseView::ProcessProposal(*d),
        }
    }
}

// ---------------------------------------------------------------------------
// Failure classification
// ---------------------------------------------------------------------------

/// Process-terminating conditions. The dispatch loop never converts these
/// into a response: the surrounding process must abort, since partial or
/// inconsistent completion cannot be reconciled with peer replicas.
#[derive(Debug, Clone, Copy, PartialEq, Eq, Structural)]
pub enum FatalError {
    /// The raw genesis payload did not decode into a genesis application
    /// state.
    MalformedGenesis,
    /// Chain initialization with fresh content was requested against a store
    /// that is already initialized.
    DuplicateGenesis,
    /// The proposal byte budget does not convert to an unsigned byte count.
    InvalidProposalBudget,
    /// The external engine or store answered a call out of order or in the
    /// wrong kind, violating the engine interface.
    EngineProtocol,
}

// ---------------------------------------------------------------------------
// Engine calls and replies
// ---------------------------------------------------------------------------

/// One call the driver asks its surroundings to perform against the state
/// transition engine or the versioned store. The payload of each call is
/// taken from the request being handled; only the kind and the order of the
/// calls are part of the driver's contract.
#[derive(Debug, Clone, Copy, PartialEq, Eq, Structural)]
pub enum EngineCall {
    /// Initialize the engine from the genesis content of the request.
    InitChain,
    /// Run the engine's begin-of-block hook with the request's header.
    BeginBlock,
    /// Apply the request's raw transaction to the working state.
    DeliverTx,
    /// Run the engine's end-of-block hook with the request's height.
    EndBlock,
    /// Read the complete, current validator set from the engine.
    ReadValidators,
    /// Commit the engine's pending writes into the store.
    Commit,
    /// Read the store's current root hash without touching state.
    ReadRootHash,
}

impl EngineCall {
    /// Whether performing the call may change engine or store state.
    pub open spec fn mutates_state(self) -> bool {
        match self {
            EngineCall::InitChain => true,
            EngineCall::BeginBlock => true,
            EngineCall::DeliverTx => true,
            EngineCall::EndBlock => true,
            EngineCall::ReadValidators => false,
            EngineCall::Commit => true,
            EngineCall::ReadRootHash => false,
        }
    }
}

/// The outcome of applying one transaction: the engine either produces
/// events or reports a recoverable failure with its cause chain.
#[derive(Debug)]
pub enum TxOutcome {
    Applied(Vec<Event>),
    Rejected(ErrorChain),
}

/// Abstract view of a transaction outcome.
pub enum TxOutcomeView {
    Applied(Seq<EventView>),
    Rejected(Seq<Seq<char>>),
}

impl View for TxOutcome {
    type V = TxOutcomeView;

    open spec fn view(&self) -> TxOutcomeView {
        match self {
            TxOutcome::Applied(events) => TxOutcomeView::Applied(events_view(events@)),
            TxOutcome::Rejected(chain) => TxOutcomeView::Rejected(chain@),
        }
    }
}

/// What the engine or store answered to one [`EngineCall`], in the same
/// order as the calls of the handler's plan.
#[derive(Debug)]
pub enum EngineReply {
    /// Answer to [`EngineCall::InitChain`].
    Initialized,
    /// Answer to [`EngineCall::BeginBlock`] or [`EngineCall::EndBlock`]: the
    /// events the hook produced.
    Events(Vec<Event>),
    /// Answer to [`EngineCall::DeliverTx`].
    Tx(TxOutcome),
    /// Answer to [`EngineCall::ReadValidators`].
    Validators(Vec<ValidatorUpdate>),
    /// Answer to [`EngineCall::Commit`]: the application hash of the
    /// committed state.
    Committed(Vec<u8>),
    /// Answer to [`EngineCall::ReadRootHash`].
    RootHash(Vec<u8>),
}

/// Abstract view of an engine reply.
pub enum EngineReplyView {
    Initialized,
    Events(Seq<EventView>),
    Tx(TxOutcomeView),
    Validators(Seq<ValidatorUpdateView>),
    Committed(Seq<u8>),
    RootHash(Seq<u8>),
}

impl View for EngineReply {
    type V = EngineReplyView;

    open spec fn view(&self) -> EngineReplyView {
        match self {
            EngineReply::Initialized => EngineReplyView::Initialized,
            EngineReply::Events(events) => EngineReplyView::Events(events_view(events@)),
            EngineReply::Tx(outcome) => EngineReplyView::Tx(outcome@),
            EngineReply::Validators(v) => EngineReplyView::Validators(validators_view(v@)),
            EngineReply::Committed(h) => EngineReplyView::Committed(h@),
            EngineReply::RootHash(h) => EngineReplyView::RootHash(h@),
        }
    }
}

// ---------------------------------------------------------------------------
// Envelopes
// ---------------------------------------------------------------------------

/// One unit of work for the driver: a request together with what the
/// external engine and store answered to the calls of the request's plan, in
/// plan order. The one-shot response destination and the observability
/// context of a unit of work are process plumbing and stay outside the
/// verified state machine.
#[derive(Debug)]
pub struct Envelope {
    pub request: ConsensusRequest,
    pub replies: Vec<EngineReply>,
}

/// Abstract view of an envelope.
pub struct EnvelopeView {
    pub request: ConsensusRequestView,
    pub replies: Seq<EngineReplyView>,
}

impl View for Envelope {
    type V = EnvelopeView;

    open spec fn view(&self) -> EnvelopeView {
        EnvelopeView {
            request: self.request@,
            replies: self.replies@.map_values(|r: EngineReply| r@),
        }
    }
}

} // verus!
