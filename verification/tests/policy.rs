use verify_example::policy::{check, judge, MessageLayer, PolicyError, VerificationOutcome};

fn group(results: Vec<VerificationOutcome>) -> MessageLayer {
    MessageLayer::SignatureGroup { results }
}

#[test]
fn good_checksum_in_single_group_is_accepted() {
    let structure = vec![group(vec![VerificationOutcome::GoodChecksum])];
    assert_eq!(check(&structure), Ok(()));
}

#[test]
fn bad_checksum_is_bad_signature() {
    let structure = vec![group(vec![VerificationOutcome::BadChecksum])];
    assert_eq!(check(&structure), Err(PolicyError::BadSignature));
}

#[test]
fn missing_key_is_missing_key() {
    let signer = vec![0x47, 0x59, 0x3b, 0x77, 0x8d, 0x05, 0x1f, 0x63];
    let structure = vec![group(vec![VerificationOutcome::MissingKey(signer)])];
    let err = check(&structure).unwrap_err();
    assert_eq!(err, PolicyError::MissingKey);
    assert_eq!(err.message(), "missing PGP key for signature");
}

#[test]
fn absent_result_is_no_signature() {
    let structure = vec![group(vec![VerificationOutcome::Absent])];
    assert_eq!(check(&structure), Err(PolicyError::NoSignature));
}

#[test]
fn empty_group_is_no_signature() {
    let structure = vec![group(Vec::new())];
    assert_eq!(check(&structure), Err(PolicyError::NoSignature));
}

#[test]
fn zero_layers_is_no_signature() {
    let structure: Vec<MessageLayer> = Vec::new();
    assert_eq!(check(&structure), Err(PolicyError::NoSignature));
}

#[test]
fn other_layer_is_unexpected_structure() {
    assert_eq!(check(&[MessageLayer::Other]), Err(PolicyError::UnexpectedStructure));
}

#[test]
fn layer_after_good_group_is_unexpected_structure() {
    let structure = vec![group(vec![VerificationOutcome::GoodChecksum]), MessageLayer::Other];
    assert_eq!(check(&structure), Err(PolicyError::UnexpectedStructure));
}

#[test]
fn second_signature_group_is_unexpected_structure() {
    let structure = vec![
        group(vec![VerificationOutcome::GoodChecksum]),
        group(vec![VerificationOutcome::GoodChecksum]),
    ];
    assert_eq!(check(&structure), Err(PolicyError::UnexpectedStructure));
}

#[test]
fn group_below_other_layer_is_unexpected_structure() {
    let structure = vec![MessageLayer::Other, group(vec![VerificationOutcome::GoodChecksum])];
    assert_eq!(check(&structure), Err(PolicyError::UnexpectedStructure));
}

#[test]
fn failure_in_first_group_comes_before_further_layers() {
    let structure = vec![group(vec![VerificationOutcome::BadChecksum]), MessageLayer::Other];
    assert_eq!(check(&structure), Err(PolicyError::BadSignature));
    let structure = vec![group(vec![VerificationOutcome::MissingKey(vec![1, 2])]), MessageLayer::Other];
    assert_eq!(check(&structure), Err(PolicyError::MissingKey));
}

#[test]
fn only_the_first_result_of_a_group_counts() {
    let structure = vec![group(vec![
        VerificationOutcome::GoodChecksum,
        VerificationOutcome::BadChecksum,
    ])];
    assert_eq!(check(&structure), Ok(()));
    let structure = vec![group(vec![
        VerificationOutcome::BadChecksum,
        VerificationOutcome::GoodChecksum,
    ])];
    assert_eq!(check(&structure), Err(PolicyError::BadSignature));
}

#[test]
fn decision_table() {
    assert_eq!(judge(Some(&VerificationOutcome::GoodChecksum)), Ok(()));
    assert_eq!(judge(Some(&VerificationOutcome::BadChecksum)), Err(PolicyError::BadSignature));
    assert_eq!(
        judge(Some(&VerificationOutcome::MissingKey(Vec::new()))),
        Err(PolicyError::MissingKey)
    );
    assert_eq!(judge(Some(&VerificationOutcome::Absent)), Err(PolicyError::NoSignature));
    assert_eq!(judge(None), Err(PolicyError::NoSignature));
}

#[test]
fn policy_error_messages() {
    assert_eq!(PolicyError::UnexpectedStructure.message(), "Unexpected message structure");
    assert_eq!(PolicyError::NoSignature.message(), "No signature");
    assert_eq!(PolicyError::BadSignature.message(), "signature verification failed");
    assert_eq!(PolicyError::MissingKey.message(), "missing PGP key for signature");
}

#[test]
fn check_is_repeatable() {
    let structure = vec![group(vec![VerificationOutcome::MissingKey(vec![9; 8])])];
    let first = check(&structure);
    let second = check(&structure);
    assert_eq!(first, second);
    assert_eq!(first, Err(PolicyError::MissingKey));
}
