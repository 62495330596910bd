use xstream_bridge::crypto::derive_identity;
use xstream_bridge::errors::MessengerError;
use xstream_bridge::staged::{StagedTransaction, TransactionAccount};

fn account(key: &[u8], is_signer: bool, is_writable: bool) -> TransactionAccount {
    TransactionAccount { pubkey: key.to_vec(), is_signer, is_writable }
}

#[test]
fn execute_attaches_the_capability_exactly_once() {
    let identity = vec![7u8; 32];
    let other = vec![8u8; 32];
    let mut tx = StagedTransaction::stage(
        vec![1u8; 32],
        vec![account(&other, false, true), account(&identity, false, false)],
        vec![1, 2, 3],
    );
    assert!(!tx.did_execute);

    let accounts = tx.execute(&identity).expect("first execution must succeed");
    assert!(tx.did_execute);
    // only the matching account is now a signer; flags otherwise unchanged
    assert_eq!(accounts.len(), 2);
    assert!(!accounts[0].is_signer);
    assert!(accounts[0].is_writable);
    assert!(accounts[1].is_signer);
    assert!(!accounts[1].is_writable);
    // the staged record itself keeps its account flags as staged
    assert!(!tx.accounts[1].is_signer);
}

#[test]
fn reexecution_always_fails_as_already_executed() {
    let identity = vec![7u8; 32];
    let mut tx = StagedTransaction::stage(
        vec![1u8; 32],
        vec![account(&identity, false, false)],
        vec![],
    );
    tx.execute(&identity).expect("first execution must succeed");

    // the same identity is refused
    assert_eq!(tx.execute(&identity), Err(MessengerError::AlreadyExecuted));
    // a different identity is refused with the same error, and the record
    // stays consumed
    assert_eq!(tx.execute(&vec![9u8; 32]), Err(MessengerError::AlreadyExecuted));
    assert!(tx.did_execute);
}

#[test]
fn execute_without_a_matching_account_rejects_and_preserves_the_record() {
    let identity = vec![7u8; 32];
    let mut tx = StagedTransaction::stage(
        vec![1u8; 32],
        vec![account(&[1u8; 32], false, false)],
        vec![],
    );
    assert_eq!(tx.execute(&identity), Err(MessengerError::InvalidPDASigner));
    assert!(!tx.did_execute);
}

#[test]
fn execute_with_identity_of_another_chain_is_rejected() {
    // A build-phase submission stages a transaction for the identity
    // derived from the sender bytes under its chain id.  An execute-phase
    // submission that presents the same raw sender bytes under a different
    // chain id derives a different identity and is rejected.
    let program_id = vec![3u8; 32];
    let sender = vec![0x5au8; 32];
    let (identity_chain_two, _) =
        derive_identity(&sender, 2, &program_id).expect("derivation must find a bump");
    let (identity_chain_three, _) =
        derive_identity(&sender, 3, &program_id).expect("derivation must find a bump");
    assert_ne!(identity_chain_two, identity_chain_three);

    let mut tx = StagedTransaction::stage(
        vec![1u8; 32],
        vec![account(&identity_chain_two, false, true)],
        vec![4, 5, 6],
    );
    assert_eq!(
        tx.execute(&identity_chain_three),
        Err(MessengerError::InvalidPDASigner)
    );
    assert!(!tx.did_execute);
    // under the chain id it was staged for, the execution goes through
    tx.execute(&identity_chain_two).expect("matching identity must succeed");
    assert!(tx.did_execute);
}
