use consensus_driver::data::ErrorChain;
use consensus_driver::log::render_error_chain;

#[test]
fn renders_a_single_message() {
    let chain = ErrorChain {
        messages: vec!["invalid transaction".to_string()],
    };
    assert_eq!(render_error_chain(&chain), "invalid transaction");
}

#[test]
fn renders_the_full_cause_chain() {
    let chain = ErrorChain {
        messages: vec![
            "failed to apply transaction".to_string(),
            "spend proof did not verify".to_string(),
            "anchor not found".to_string(),
        ],
    };
    assert_eq!(
        render_error_chain(&chain),
        "failed to apply transaction: spend proof did not verify: anchor not found"
    );
}
