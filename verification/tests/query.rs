use consensus_driver::query::{QueryError, Server};
use consensus_driver::store::StoreModel;

#[test]
fn empty_key_is_rejected() {
    let server = Server::new(StoreModel::new(4, vec![9; 32]));
    let result = server.key_value(&Vec::new(), Some(vec![1]));
    assert_eq!(result.unwrap_err(), QueryError::EmptyKey);
}

#[test]
fn key_value_passes_the_stored_value_through() {
    let server = Server::new(StoreModel::new(4, vec![9; 32]));
    let found = server
        .key_value(&vec![0x6b], Some(vec![1, 2, 3]))
        .expect("non-empty key must be answered");
    assert_eq!(found.value, Some(vec![1, 2, 3]));
    let missing = server
        .key_value(&vec![0x6b], None)
        .expect("non-empty key must be answered");
    assert_eq!(missing.value, None);
}

#[test]
fn empty_prefix_is_rejected() {
    let server = Server::new(StoreModel::new(4, vec![9; 32]));
    let result = server.prefix_value(&Vec::new(), Vec::new());
    assert_eq!(result.unwrap_err(), QueryError::EmptyPrefix);
}

#[test]
fn prefix_value_passes_entries_through_in_order() {
    let server = Server::new(StoreModel::new(4, vec![9; 32]));
    let entries = vec![
        ("shielded_pool/a".to_string(), vec![1]),
        ("shielded_pool/b".to_string(), vec![2, 3]),
    ];
    let responses = server
        .prefix_value(&vec![0x73], entries)
        .expect("non-empty prefix must be answered");
    assert_eq!(responses.len(), 2);
    assert_eq!(responses[0].key, "shielded_pool/a");
    assert_eq!(responses[0].value, vec![1]);
    assert_eq!(responses[1].key, "shielded_pool/b");
    assert_eq!(responses[1].value, vec![2, 3]);
}
