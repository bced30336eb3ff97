//! The driver's lifecycle laws, stated and proved over the dispatch model.
//!
//! Each law is a public proof function: its `requires` holds only what the
//! law assumes, and its `ensures` states the law over the same model that
//! the executable driver is verified against ([`spec_step`] and
//! [`spec_run`]).

use vstd::prelude::*;
use crate::data::{
    ConsensusRequestView, ConsensusResponseView, EngineCall, EngineReplyView, EnvelopeView,
    EventView, FatalError, GenesisAppStateView, TxOutcomeView, ValidatorUpdateView,
};
use crate::driver::{spec_plan, spec_run, spec_step};
use crate::log::{lemma_render_chain_len, spec_render_chain};
use crate::store::StoreModelView;

verus! {

/// Whether a response answers the given request: the variants correspond.
pub open spec fn response_matches_request(
    request: ConsensusRequestView,
    response: ConsensusResponseView,
) -> bool {
    match request {
        ConsensusRequestView::InitChain(_) => response is InitChain,
        ConsensusRequestView::BeginBlock(_) => response is BeginBlock,
        ConsensusRequestView::DeliverTx(_) => response is DeliverTx,
        ConsensusRequestView::EndBlock(_) => response is EndBlock,
        ConsensusRequestView::Commit => response is Commit,
        ConsensusRequestView::PrepareProposal { .. } => response is PrepareProposal,
        ConsensusRequestView::ProcessProposal { .. } => response is ProcessProposal,
    }
}

/// A successful step answers its own request: the response variant matches
/// the request variant.
pub proof fn lemma_step_response_variant(store: StoreModelView, envelope: EnvelopeView)
    ensures
        spec_step(store, envelope).outcome matches Result::Ok(response)
            ==> response_matches_request(envelope.request, response),
{
    match envelope.request {
        ConsensusRequestView::InitChain(_) => {},
        ConsensusRequestView::BeginBlock(_) => {},
        ConsensusRequestView::DeliverTx(_) => {},
        ConsensusRequestView::EndBlock(_) => {},
        ConsensusRequestView::Commit => {},
        ConsensusRequestView::PrepareProposal { .. } => {},
        ConsensusRequestView::ProcessProposal { .. } => {},
    }
}

/// Order preservation: dispatching envelopes produces one response per
/// envelope, in envelope order, each answering its own request, with no
/// interleaving; a fatal condition stops dispatch, so exactly the envelopes
/// before it are answered.
pub proof fn lemma_order_preservation(store: StoreModelView, envelopes: Seq<EnvelopeView>)
    ensures
        spec_run(store, envelopes).responses.len() <= envelopes.len(),
        spec_run(store, envelopes).fault is None <==> spec_run(store, envelopes).responses.len()
            == envelopes.len(),
        forall|i: int|
            0 <= i < spec_run(store, envelopes).responses.len() ==> response_matches_request(
                envelopes[i].request,
                #[trigger] spec_run(store, envelopes).responses[i],
            ),
    decreases envelopes.len(),
{
    let out = spec_run(store, envelopes);
    if envelopes.len() == 0 {
    } else {
        let first = spec_step(store, envelopes[0]);
        match first.outcome {
            Result::Err(_) => {},
            Result::Ok(_) => {
                let rest = spec_run(first.store, envelopes.drop_first());
                lemma_step_response_variant(store, envelopes[0]);
                lemma_order_preservation(first.store, envelopes.drop_first());
                assert forall|i: int| 0 <= i < out.responses.len() implies response_matches_request(
                    envelopes[i].request,
                    #[trigger] out.responses[i],
                ) by {
                    if i > 0 {
                        assert(out.responses[i] == rest.responses[i - 1]);
                        assert(envelopes.drop_first()[i - 1] == envelopes[i]);
                    }
                }
            },
        }
    }
}

/// Each response of a dispatch is exactly the outcome of its own envelope's
/// step, taken against the store state that the envelopes before it left
/// behind.
pub proof fn lemma_run_response_at(store: StoreModelView, envelopes: Seq<EnvelopeView>, i: int)
    requires
        0 <= i < spec_run(store, envelopes).responses.len(),
    ensures
        spec_run(store, envelopes.take(i)).fault is None,
        spec_step(spec_run(store, envelopes.take(i)).store, envelopes[i]).outcome is Ok,
        spec_run(store, envelopes).responses[i] == spec_step(
            spec_run(store, envelopes.take(i)).store,
            envelopes[i],
        ).outcome->Ok_0,
    decreases i,
{
    lemma_order_preservation(store, envelopes);
    let out = spec_run(store, envelopes);
    let first = spec_step(store, envelopes[0]);
    assert(first.outcome is Ok);
    if i == 0 {
        assert(envelopes.take(0) =~= Seq::<EnvelopeView>::empty());
    } else {
        let rest_envs = envelopes.drop_first();
        lemma_run_response_at(first.store, rest_envs, i - 1);
        assert(envelopes.take(i).drop_first() =~= rest_envs.take(i - 1));
        assert(envelopes.take(i)[0] == envelopes[0]);
        assert(out.responses[i] == spec_run(first.store, rest_envs).responses[i - 1]);
        assert(rest_envs[i - 1] == envelopes[i]);
    }
}

/// Whether an envelope asks for chain initialization from fresh content.
pub open spec fn is_content_init(envelope: EnvelopeView) -> bool {
    envelope.request matches ConsensusRequestView::InitChain(r) && r.genesis matches Option::Some(
        GenesisAppStateView::Content(_),
    )
}

/// Whether an envelope asks for chain initialization from a checkpoint.
pub open spec fn is_checkpoint_init(envelope: EnvelopeView) -> bool {
    envelope.request matches ConsensusRequestView::InitChain(r) && r.genesis matches Option::Some(
        GenesisAppStateView::Checkpoint(_),
    )
}

/// Genesis idempotency: a completed content initialization against a store
/// that had never committed leaves the store at version 0, carrying the
/// genesis application hash that was answered; a second content
/// initialization against that store is fatal — a duplicate genesis — and
/// changes nothing.
pub proof fn lemma_genesis_idempotency(
    store: StoreModelView,
    first: EnvelopeView,
    second: EnvelopeView,
)
    requires
        !store.initialized(),
        is_content_init(first),
        spec_step(store, first).outcome is Ok,
        is_content_init(second),
    ensures
        spec_step(store, first).store.version == 0,
        spec_step(store, first).store.initialized(),
        spec_step(store, first).outcome->Ok_0 matches ConsensusResponseView::InitChain(r)
            && r.app_hash == spec_step(store, first).store.root_hash,
        spec_step(spec_step(store, first).store, second).outcome == Result::<
            ConsensusResponseView,
            FatalError,
        >::Err(FatalError::DuplicateGenesis),
        spec_step(spec_step(store, first).store, second).store == spec_step(store, first).store,
{
}

/// Checkpoint passthrough: a checkpoint initialization has a plan of pure
/// reads, never changes the store, and — when the store answered its own
/// current root hash — returns exactly that root hash as the application
/// hash.
pub proof fn lemma_checkpoint_passthrough(store: StoreModelView, envelope: EnvelopeView)
    requires
        is_checkpoint_init(envelope),
    ensures
        spec_step(store, envelope).store == store,
        spec_plan(store, envelope.request) == Result::<Seq<EngineCall>, FatalError>::Ok(
            seq![EngineCall::ReadValidators, EngineCall::ReadRootHash],
        ),
        forall|i: int|
            0 <= i < spec_plan(store, envelope.request)->Ok_0.len() ==> !(
            #[trigger] spec_plan(store, envelope.request)->Ok_0[i]).mutates_state(),
        (envelope.replies.len() == 2 && envelope.replies[0] is Validators
            && envelope.replies[1] == EngineReplyView::RootHash(store.root_hash)) ==> (spec_step(
            store,
            envelope,
        ).outcome matches Result::Ok(ConsensusResponseView::InitChain(r)) && r.app_hash
            == store.root_hash),
{
    let plan = spec_plan(store, envelope.request)->Ok_0;
    assert(plan[0] == EngineCall::ReadValidators);
    assert(plan[1] == EngineCall::ReadRootHash);
}

/// Genesis ordering: a content initialization against a fresh store has the
/// plan engine-initialization, validator read, commit — the validator set is
/// retrieved strictly after the engine has processed the genesis content,
/// never before, and the commit comes last so its hash reflects the full
/// genesis state.
pub proof fn lemma_content_init_plan_ordering(store: StoreModelView, envelope: EnvelopeView)
    requires
        !store.initialized(),
        is_content_init(envelope),
    ensures
        spec_plan(store, envelope.request) == Result::<Seq<EngineCall>, FatalError>::Ok(
            seq![EngineCall::InitChain, EngineCall::ReadValidators, EngineCall::Commit],
        ),
        spec_plan(store, envelope.request)->Ok_0[0] == EngineCall::InitChain,
        spec_plan(store, envelope.request)->Ok_0[1] == EngineCall::ReadValidators,
        spec_plan(store, envelope.request)->Ok_0[2] == EngineCall::Commit,
{
    let plan = spec_plan(store, envelope.request)->Ok_0;
    assert(plan[0] == EngineCall::InitChain);
    assert(plan[1] == EngineCall::ReadValidators);
    assert(plan[2] == EngineCall::Commit);
}

/// Transaction-failure isolation: a rejected transaction is answered with
/// status code 1, a non-empty log, and no events; it leaves the store as it
/// was, and any later transaction is handled exactly as it would have been
/// had the failure not happened.
pub proof fn lemma_deliver_tx_isolation(
    store: StoreModelView,
    first: EnvelopeView,
    second: EnvelopeView,
    chain: Seq<Seq<char>>,
)
    requires
        first.request is DeliverTx,
        first.replies == seq![EngineReplyView::Tx(TxOutcomeView::Rejected(chain))],
        chain.len() >= 1,
        chain[0].len() >= 1,
        second.request is DeliverTx,
    ensures
        spec_step(store, first).store == store,
        spec_step(store, first).outcome matches Result::Ok(
            ConsensusResponseView::DeliverTx(r),
        ) && r.code == 1 && r.log.len() >= 1 && r.events.len() == 0,
        spec_step(spec_step(store, first).store, second) == spec_step(store, second),
{
    assert(first.replies.len() == 1);
    assert(first.replies[0] == EngineReplyView::Tx(TxOutcomeView::Rejected(chain)));
    lemma_render_chain_len(chain);
    assert(spec_render_chain(chain).len() >= 1);
}

/// Validator-update ordering: the end-of-block plan reads the validator set
/// strictly after the engine's end-of-block hook has run, and the answered
/// validator set is exactly the one read then — never an earlier snapshot.
pub proof fn lemma_end_block_validator_ordering(
    store: StoreModelView,
    envelope: EnvelopeView,
    events: Seq<EventView>,
    validators: Seq<ValidatorUpdateView>,
)
    requires
        envelope.request is EndBlock,
        envelope.replies == seq![
            EngineReplyView::Events(events),
            EngineReplyView::Validators(validators),
        ],
    ensures
        spec_plan(store, envelope.request) == Result::<Seq<EngineCall>, FatalError>::Ok(
            seq![EngineCall::EndBlock, EngineCall::ReadValidators],
        ),
        spec_plan(store, envelope.request)->Ok_0[0] == EngineCall::EndBlock,
        spec_plan(store, envelope.request)->Ok_0[1] == EngineCall::ReadValidators,
        spec_step(store, envelope).store == store,
        spec_step(store, envelope).outcome matches Result::Ok(
            ConsensusResponseView::EndBlock(r),
        ) && r.validator_updates == validators && r.events == events
            && r.consensus_param_updates is None,
{
    assert(envelope.replies.len() == 2);
    assert(envelope.replies[0] == EngineReplyView::Events(events));
    assert(envelope.replies[1] == EngineReplyView::Validators(validators));
}

/// A commit answers exactly the application hash the engine committed, with
/// a zero retain-height, and the store handle then carries that hash at the
/// next version.
pub proof fn lemma_commit_reflects_store(
    store: StoreModelView,
    envelope: EnvelopeView,
    hash: Seq<u8>,
)
    requires
        envelope.request is Commit,
        envelope.replies == seq![EngineReplyView::Committed(hash)],
    ensures
        spec_step(store, envelope).outcome matches Result::Ok(
            ConsensusResponseView::Commit { data, retain_height },
        ) && data == hash && retain_height == 0,
        spec_step(store, envelope).store.root_hash == hash,
        spec_step(store, envelope).store.version == store.next_version(),
{
    assert(envelope.replies.len() == 1);
    assert(envelope.replies[0] == EngineReplyView::Committed(hash));
}

/// Commit determinism: the driver is a pure function of the store it starts
/// from and the envelopes it is given. Two replicas that start from stores
/// holding the same content and receive the same block lifecycle sequence
/// produce the same responses — in particular, byte-identical application
/// hashes at every commit.
pub proof fn lemma_commit_determinism(
    store1: StoreModelView,
    store2: StoreModelView,
    envelopes1: Seq<EnvelopeView>,
    envelopes2: Seq<EnvelopeView>,
)
    requires
        store1 == store2,
        envelopes1 == envelopes2,
    ensures
        spec_run(store1, envelopes1) == spec_run(store2, envelopes2),
{
}

} // verus!
