use consensus_driver::data::{
    ConsensusRequest, ConsensusResponse, Envelope, FatalError, PrepareProposalRequest,
};
use consensus_driver::driver::Consensus;
use consensus_driver::proposal::pack_transactions;
use consensus_driver::store::StoreModel;

#[test]
fn packs_all_when_budget_suffices() {
    let txs = vec![vec![1, 2], vec![3], vec![4, 5, 6]];
    let packed = pack_transactions(txs.clone(), 6);
    assert_eq!(packed, txs);
}

#[test]
fn stops_at_first_oversized_candidate() {
    // The third candidate would still fit, but packing stops entirely at the
    // second: no skip-and-continue, no backfilling.
    let txs = vec![vec![1, 2], vec![3, 4, 5, 6, 7], vec![8]];
    let packed = pack_transactions(txs, 3);
    assert_eq!(packed, vec![vec![1, 2]]);
}

#[test]
fn exact_fit_is_included() {
    let txs = vec![vec![1, 2], vec![3]];
    let packed = pack_transactions(txs.clone(), 3);
    assert_eq!(packed, txs);
}

#[test]
fn empty_candidate_list_packs_empty() {
    let packed = pack_transactions(Vec::new(), 1000);
    assert!(packed.is_empty());
}

#[test]
fn zero_budget_admits_only_empty_transactions() {
    let txs = vec![vec![], vec![1]];
    let packed = pack_transactions(txs, 0);
    assert_eq!(packed, vec![Vec::<u8>::new()]);
}

#[test]
fn prepare_proposal_truncates_in_order() {
    let mut consensus = Consensus::new(StoreModel::new(4, vec![9; 32]));
    let envelope = Envelope {
        request: ConsensusRequest::PrepareProposal(PrepareProposalRequest {
            txs: vec![vec![0xa1; 10], vec![0xa2; 10], vec![0xa3; 10]],
            max_tx_bytes: 25,
        }),
        replies: vec![],
    };
    let response = consensus.step(envelope).expect("prepare_proposal must succeed");
    match response {
        ConsensusResponse::PrepareProposal(r) => {
            assert_eq!(r.txs, vec![vec![0xa1; 10], vec![0xa2; 10]]);
        }
        _ => panic!("response does not match the request"),
    }
}

#[test]
fn negative_budget_is_fatal() {
    let mut consensus = Consensus::new(StoreModel::new(4, vec![9; 32]));
    let envelope = Envelope {
        request: ConsensusRequest::PrepareProposal(PrepareProposalRequest {
            txs: vec![vec![1]],
            max_tx_bytes: -1,
        }),
        replies: vec![],
    };
    assert_eq!(
        consensus.step(envelope).unwrap_err(),
        FatalError::InvalidProposalBudget
    );
}
