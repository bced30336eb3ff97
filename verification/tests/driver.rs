use consensus_driver::data::{
    BeginBlockRequest, BlockHeader, ConsensusRequest, ConsensusResponse, DeliverTxRequest,
    EndBlockRequest, EngineCall, EngineReply, Envelope, ErrorChain, Event, EventAttribute,
    FatalError, GenesisAppState, InitChainRequest, ProcessProposalRequest, ProposalDecision,
    TxOutcome, ValidatorUpdate,
};
use consensus_driver::driver::Consensus;
use consensus_driver::store::{StoreModel, VERSION_UNINITIALIZED};

fn header(height: u64) -> BlockHeader {
    BlockHeader {
        height,
        time_unix_nanos: 1_700_000_000_000_000_000,
    }
}

fn event(kind: &str, key: &str, value: &str) -> Event {
    Event {
        kind: kind.to_string(),
        attributes: vec![EventAttribute {
            key: key.to_string(),
            value: value.to_string(),
        }],
    }
}

fn validator(byte: u8, power: u64) -> ValidatorUpdate {
    ValidatorUpdate {
        pub_key: vec![byte; 32],
        power,
    }
}

fn begin_block_envelope(height: u64, events: Vec<Event>) -> Envelope {
    Envelope {
        request: ConsensusRequest::BeginBlock(BeginBlockRequest {
            header: header(height),
        }),
        replies: vec![EngineReply::Events(events)],
    }
}

fn deliver_envelope(tx: Vec<u8>, outcome: TxOutcome) -> Envelope {
    Envelope {
        request: ConsensusRequest::DeliverTx(DeliverTxRequest { tx }),
        replies: vec![EngineReply::Tx(outcome)],
    }
}

fn end_block_envelope(height: u64, events: Vec<Event>, validators: Vec<ValidatorUpdate>) -> Envelope {
    Envelope {
        request: ConsensusRequest::EndBlock(EndBlockRequest { height }),
        replies: vec![
            EngineReply::Events(events),
            EngineReply::Validators(validators),
        ],
    }
}

fn commit_envelope(hash: Vec<u8>) -> Envelope {
    Envelope {
        request: ConsensusRequest::Commit,
        replies: vec![EngineReply::Committed(hash)],
    }
}

fn content_init_envelope(validators: Vec<ValidatorUpdate>, hash: Vec<u8>) -> Envelope {
    Envelope {
        request: ConsensusRequest::InitChain(InitChainRequest {
            genesis: Some(GenesisAppState::Content(vec![0x7b, 0x7d])),
            consensus_params: vec![1, 2, 3],
        }),
        replies: vec![
            EngineReply::Initialized,
            EngineReply::Validators(validators),
            EngineReply::Committed(hash),
        ],
    }
}

#[test]
fn begin_block_passes_events_through() {
    let mut consensus = Consensus::new(StoreModel::new(4, vec![9; 32]));
    let events = vec![event("stake", "action", "delegate"), event("ibc", "packet", "recv")];
    let response = consensus
        .step(begin_block_envelope(5, events.clone()))
        .expect("begin_block must succeed");
    match response {
        ConsensusResponse::BeginBlock(r) => assert_eq!(r.events, events),
        _ => panic!("response does not match the request"),
    }
}

#[test]
fn deliver_tx_failure_reports_code_and_log() {
    let mut consensus = Consensus::new(StoreModel::new(4, vec![9; 32]));
    let chain = ErrorChain {
        messages: vec![
            "transaction invalid".to_string(),
            "nullifier already spent".to_string(),
        ],
    };
    let response = consensus
        .step(deliver_envelope(vec![0xde, 0xad], TxOutcome::Rejected(chain)))
        .expect("deliver_tx failure is recoverable, not fatal");
    match response {
        ConsensusResponse::DeliverTx(r) => {
            assert_eq!(r.code, 1);
            assert_eq!(r.log, "transaction invalid: nullifier already spent");
            assert!(r.events.is_empty());
        }
        _ => panic!("response does not match the request"),
    }
}

#[test]
fn deliver_tx_failure_does_not_stop_the_block() {
    let mut consensus = Consensus::new(StoreModel::new(4, vec![9; 32]));
    let failing = deliver_envelope(
        vec![1],
        TxOutcome::Rejected(ErrorChain {
            messages: vec!["bad tx".to_string()],
        }),
    );
    let ok_events = vec![event("spend", "note", "abc")];
    let succeeding = deliver_envelope(vec![2], TxOutcome::Applied(ok_events.clone()));
    let (responses, fault) = consensus.run(vec![failing, succeeding]);
    assert!(fault.is_none());
    assert_eq!(responses.len(), 2);
    match &responses[0] {
        ConsensusResponse::DeliverTx(r) => assert_eq!(r.code, 1),
        _ => panic!("first response does not match"),
    }
    match &responses[1] {
        ConsensusResponse::DeliverTx(r) => {
            assert_eq!(r.code, 0);
            assert_eq!(r.log, "");
            assert_eq!(r.events, ok_events);
        }
        _ => panic!("second response does not match"),
    }
}

#[test]
fn content_genesis_initializes_once() {
    let mut consensus = Consensus::new(StoreModel::new(VERSION_UNINITIALIZED, vec![]));
    let genesis_hash = vec![7; 32];
    let validators = vec![validator(1, 10), validator(2, 20)];
    let response = consensus
        .step(content_init_envelope(validators.clone(), genesis_hash.clone()))
        .expect("first content initialization must succeed");
    match response {
        ConsensusResponse::InitChain(r) => {
            assert_eq!(r.consensus_params, vec![1, 2, 3]);
            assert_eq!(r.validators, validators);
            assert_eq!(r.app_hash, genesis_hash);
        }
        _ => panic!("response does not match the request"),
    }
    let second = consensus.step(content_init_envelope(validators, genesis_hash));
    assert_eq!(second.unwrap_err(), FatalError::DuplicateGenesis);
}

#[test]
fn checkpoint_genesis_returns_store_root() {
    let store_root = vec![3; 32];
    let mut consensus = Consensus::new(StoreModel::new(41, store_root.clone()));
    let request = ConsensusRequest::InitChain(InitChainRequest {
        genesis: Some(GenesisAppState::Checkpoint(store_root.clone())),
        consensus_params: vec![8],
    });
    let plan = consensus.plan(&request).expect("checkpoint genesis has a plan");
    assert_eq!(
        plan,
        vec![EngineCall::ReadValidators, EngineCall::ReadRootHash]
    );
    let envelope = Envelope {
        request,
        replies: vec![
            EngineReply::Validators(vec![validator(1, 5)]),
            EngineReply::RootHash(store_root.clone()),
        ],
    };
    let response = consensus.step(envelope).expect("checkpoint genesis must succeed");
    match response {
        ConsensusResponse::InitChain(r) => assert_eq!(r.app_hash, store_root),
        _ => panic!("response does not match the request"),
    }
}

#[test]
fn malformed_genesis_is_fatal() {
    let mut consensus = Consensus::new(StoreModel::new(VERSION_UNINITIALIZED, vec![]));
    let envelope = Envelope {
        request: ConsensusRequest::InitChain(InitChainRequest {
            genesis: None,
            consensus_params: vec![],
        }),
        replies: vec![],
    };
    let (responses, fault) = consensus.run(vec![envelope]);
    assert!(responses.is_empty());
    assert_eq!(fault, Some(FatalError::MalformedGenesis));
}

#[test]
fn end_block_returns_current_validators() {
    let mut consensus = Consensus::new(StoreModel::new(4, vec![9; 32]));
    let request = ConsensusRequest::EndBlock(EndBlockRequest { height: 5 });
    let plan = consensus.plan(&request).expect("end_block has a plan");
    assert_eq!(plan, vec![EngineCall::EndBlock, EngineCall::ReadValidators]);
    let events = vec![event("validator", "power", "changed")];
    let validators = vec![validator(1, 0), validator(2, 30)];
    let response = consensus
        .step(end_block_envelope(5, events.clone(), validators.clone()))
        .expect("end_block must succeed");
    match response {
        ConsensusResponse::EndBlock(r) => {
            assert_eq!(r.validator_updates, validators);
            assert_eq!(r.events, events);
            assert!(r.consensus_param_updates.is_none());
        }
        _ => panic!("response does not match the request"),
    }
}

#[test]
fn commit_returns_hash_and_zero_retain_height() {
    let mut consensus = Consensus::new(StoreModel::new(4, vec![9; 32]));
    let hash = vec![5; 32];
    let response = consensus
        .step(commit_envelope(hash.clone()))
        .expect("commit must succeed");
    match response {
        ConsensusResponse::Commit(r) => {
            assert_eq!(r.data, hash);
            assert_eq!(r.retain_height, 0);
        }
        _ => panic!("response does not match the request"),
    }
}

#[test]
fn responses_follow_request_order() {
    let mut consensus = Consensus::new(StoreModel::new(4, vec![9; 32]));
    let envelopes = vec![
        begin_block_envelope(5, vec![]),
        deliver_envelope(vec![1], TxOutcome::Applied(vec![])),
        end_block_envelope(5, vec![], vec![validator(1, 10)]),
        commit_envelope(vec![6; 32]),
    ];
    let (responses, fault) = consensus.run(envelopes);
    assert!(fault.is_none());
    assert_eq!(responses.len(), 4);
    assert!(matches!(responses[0], ConsensusResponse::BeginBlock(_)));
    assert!(matches!(responses[1], ConsensusResponse::DeliverTx(_)));
    assert!(matches!(responses[2], ConsensusResponse::EndBlock(_)));
    assert!(matches!(responses[3], ConsensusResponse::Commit(_)));
}

#[test]
fn engine_protocol_violation_is_fatal() {
    let mut consensus = Consensus::new(StoreModel::new(4, vec![9; 32]));
    let envelope = Envelope {
        request: ConsensusRequest::BeginBlock(BeginBlockRequest { header: header(5) }),
        replies: vec![EngineReply::Initialized],
    };
    assert_eq!(
        consensus.step(envelope).unwrap_err(),
        FatalError::EngineProtocol
    );
}

#[test]
fn process_proposal_accepts_every_proposal() {
    let mut consensus = Consensus::new(StoreModel::new(4, vec![9; 32]));
    let envelope = Envelope {
        request: ConsensusRequest::ProcessProposal(ProcessProposalRequest {
            txs: vec![vec![0xff; 100]],
        }),
        replies: vec![],
    };
    let response = consensus.step(envelope).expect("process_proposal must succeed");
    match response {
        ConsensusResponse::ProcessProposal(decision) => {
            assert_eq!(decision, ProposalDecision::Accept)
        }
        _ => panic!("response does not match the request"),
    }
}

#[test]
fn identical_runs_produce_identical_hashes() {
    let block = |hash: Vec<u8>| {
        vec![
            begin_block_envelope(1, vec![event("begin", "h", "1")]),
            deliver_envelope(vec![1, 2, 3], TxOutcome::Applied(vec![event("spend", "n", "x")])),
            end_block_envelope(1, vec![], vec![validator(1, 10)]),
            commit_envelope(hash),
        ]
    };
    let hash = vec![0xaa; 32];
    let mut replica_a = Consensus::new(StoreModel::new(VERSION_UNINITIALIZED, vec![]));
    let mut replica_b = Consensus::new(StoreModel::new(VERSION_UNINITIALIZED, vec![]));
    let (responses_a, fault_a) = replica_a.run(block(hash.clone()));
    let (responses_b, fault_b) = replica_b.run(block(hash));
    assert!(fault_a.is_none() && fault_b.is_none());
    assert_eq!(responses_a.len(), responses_b.len());
    for (a, b) in responses_a.iter().zip(responses_b.iter()) {
        match (a, b) {
            (ConsensusResponse::Commit(ra), ConsensusResponse::Commit(rb)) => {
                assert_eq!(ra.data, rb.data);
                assert_eq!(ra.retain_height, rb.retain_height);
            }
            _ => {}
        }
    }
}
