use basepure::sender::{
    after_signing, after_submission, same_address, with_nonce, Address, Dropped, SignerSet, TxStep,
};

fn addr(last: u8) -> Address {
    let mut bytes = [0u8; 20];
    bytes[19] = last;
    Address { bytes }
}

#[test]
fn missing_sender_drops_the_action() {
    let signers = SignerSet { addresses: vec![addr(1)] };
    assert_eq!(signers.plan(None, Some(3)), TxStep::Drop(Dropped::MissingSender));
}

#[test]
fn missing_signer_drops_the_action() {
    let signers = SignerSet { addresses: vec![addr(1)] };
    assert_eq!(signers.plan(Some(addr(2)), None), TxStep::Drop(Dropped::MissingSigner));
}

#[test]
fn a_request_without_nonce_fetches_it() {
    let signers = SignerSet { addresses: vec![addr(1), addr(2)] };
    assert_eq!(signers.plan(Some(addr(2)), None), TxStep::FetchNonce { signer: 1 });
    assert_eq!(with_nonce(1, Some(9)), TxStep::Sign { signer: 1, nonce: 9 });
    assert_eq!(with_nonce(1, None), TxStep::Drop(Dropped::NonceUnavailable));
}

#[test]
fn a_request_with_nonce_is_signed_at_once() {
    let signers = SignerSet { addresses: vec![addr(1)] };
    assert_eq!(signers.plan(Some(addr(1)), Some(4)), TxStep::Sign { signer: 0, nonce: 4 });
}

#[test]
fn the_last_signer_for_an_address_serves_it() {
    let signers = SignerSet { addresses: vec![addr(5), addr(6), addr(5)] };
    assert_eq!(signers.find(&addr(5)), Some(2));
    assert_eq!(signers.find(&addr(6)), Some(1));
    assert_eq!(signers.find(&addr(7)), None);
}

#[test]
fn signing_and_submission_outcomes() {
    assert_eq!(after_signing(true, true), TxStep::Submit { dedicated: true });
    assert_eq!(after_signing(true, false), TxStep::Submit { dedicated: false });
    assert_eq!(after_signing(false, true), TxStep::Drop(Dropped::BuildFailed));
    assert_eq!(after_submission(true), TxStep::Sent);
    assert_eq!(after_submission(false), TxStep::Drop(Dropped::SendFailed));
}

#[test]
fn addresses_compare_by_every_byte() {
    let mut other = addr(1);
    assert!(same_address(&addr(1), &other));
    other.bytes[0] = 1;
    assert!(!same_address(&addr(1), &other));
}
