use app_store_server_library::chain_verifier::{
    app_store_chain_policy, ChainValidationOutcome, ChainVerificationFailureReason, ChainVerifier, ChainVerifierError,
};

const LEAF: &[u8] = b"leaf certificate";
const INTERMEDIATE: &[u8] = b"intermediate certificate";

fn valid(key: &'static [u8]) -> impl FnOnce(&[u8], &[u8], &Vec<Vec<u8>>, i64) -> ChainValidationOutcome {
    move |_, _, _, _| ChainValidationOutcome::Valid(key.to_vec())
}

#[test]
fn cache_engages_only_with_online_checks() {
    let mut verifier = ChainVerifier::new(vec![b"root".to_vec()]);
    assert_eq!(verifier.cache_len(), 0);
    let key = verifier.verify_at(LEAF, INTERMEDIATE, None, false, 1_700_000_000, valid(b"spki")).unwrap();
    assert_eq!(key, b"spki".to_vec());
    assert_eq!(verifier.cache_len(), 0, "nothing cached without online checks");
    let key = verifier.verify_at(LEAF, INTERMEDIATE, None, true, 1_700_000_000, valid(b"spki")).unwrap();
    assert_eq!(key, b"spki".to_vec());
    assert_eq!(verifier.cache_len(), 1);
}

#[test]
fn a_fresh_cached_key_is_returned_without_validating() {
    let mut verifier = ChainVerifier::new(vec![]);
    verifier.verify_at(LEAF, INTERMEDIATE, None, true, 1000, valid(b"first")).unwrap();
    // Within 15 minutes the cached key answers; the validator is not consulted.
    let key = verifier
        .verify_at(LEAF, INTERMEDIATE, None, true, 1000 + 899, |_: &[u8], _: &[u8], _: &Vec<Vec<u8>>, _: i64| {
            panic!("must not validate")
        })
        .unwrap();
    assert_eq!(key, b"first".to_vec());
    // At 15 minutes the entry has expired, and the validator answers again.
    let key = verifier.verify_at(LEAF, INTERMEDIATE, None, true, 1000 + 900, valid(b"second")).unwrap();
    assert_eq!(key, b"second".to_vec());
    assert_eq!(verifier.cached_public_key(LEAF, INTERMEDIATE, 1000 + 901), Some(b"second".to_vec()));
}

#[test]
fn store_then_lookup_gives_the_key_until_it_expires() {
    let mut verifier = ChainVerifier::new(vec![]);
    verifier.store_public_key(LEAF, INTERMEDIATE, b"key", 50);
    assert_eq!(verifier.cached_public_key(LEAF, INTERMEDIATE, 50), Some(b"key".to_vec()));
    assert_eq!(verifier.cached_public_key(LEAF, INTERMEDIATE, 949), Some(b"key".to_vec()));
    assert_eq!(verifier.cached_public_key(LEAF, INTERMEDIATE, 950), None);
    assert_eq!(verifier.cached_public_key(LEAF, b"other", 50), None);
}

#[test]
fn storing_one_chain_leaves_others_in_place() {
    let mut verifier = ChainVerifier::new(vec![]);
    verifier.store_public_key(b"a", b"b", b"k1", 10);
    verifier.store_public_key(b"c", b"d", b"k2", 20);
    assert_eq!(verifier.cached_public_key(b"a", b"b", 30), Some(b"k1".to_vec()));
    assert_eq!(verifier.cached_public_key(b"c", b"d", 30), Some(b"k2".to_vec()));
    verifier.store_public_key(b"a", b"b", b"k3", 40);
    assert_eq!(verifier.cache_len(), 2);
    assert_eq!(verifier.cached_public_key(b"a", b"b", 41), Some(b"k3".to_vec()));
}

#[test]
fn a_full_cache_drops_expired_entries() {
    let mut verifier = ChainVerifier::new(vec![]);
    for i in 0..32u8 {
        verifier.store_public_key(&[i], b"x", b"k", 0);
    }
    assert_eq!(verifier.cache_len(), 32);
    // The 33rd entry, stored once the others expired, prunes them.
    verifier.store_public_key(&[200], b"x", b"k", 900);
    assert_eq!(verifier.cache_len(), 1);
    assert_eq!(verifier.cached_public_key(&[200], b"x", 901), Some(b"k".to_vec()));
}

#[test]
fn rejections_mentioning_expiry_are_expired_certificates() {
    let mut verifier = ChainVerifier::new(vec![]);
    let res = verifier.verify_at(LEAF, INTERMEDIATE, Some(5), false, 0, |_: &[u8], _: &[u8], _: &Vec<Vec<u8>>, t: i64| {
        assert_eq!(t, 5);
        ChainValidationOutcome::Rejected(vec!["certificate has expired".to_string()])
    });
    assert_eq!(
        res,
        Err(ChainVerifierError::VerificationFailure(ChainVerificationFailureReason::CertificateExpired))
    );
    let res = verifier.verify_at(LEAF, INTERMEDIATE, None, false, 0, |_: &[u8], _: &[u8], _: &Vec<Vec<u8>>, _: i64| {
        ChainValidationOutcome::Rejected(vec!["bad signature".to_string()])
    });
    assert_eq!(
        res,
        Err(ChainVerifierError::VerificationFailure(ChainVerificationFailureReason::InvalidCertificate))
    );
    let res = verifier.verify_at(LEAF, INTERMEDIATE, None, true, 0, |_: &[u8], _: &[u8], _: &Vec<Vec<u8>>, _: i64| {
        ChainValidationOutcome::Unparsable
    });
    assert_eq!(
        res,
        Err(ChainVerifierError::VerificationFailure(ChainVerificationFailureReason::InvalidCertificate))
    );
    assert_eq!(verifier.cache_len(), 0, "failures are not cached");
}

#[test]
fn effective_dates_beyond_i64_are_clamped() {
    let mut verifier = ChainVerifier::new(vec![b"r1".to_vec(), b"r2".to_vec()]);
    let res = verifier.verify_at(LEAF, INTERMEDIATE, Some(u64::MAX), false, 0, |l: &[u8], i: &[u8], roots: &Vec<Vec<u8>>, t: i64| {
        assert_eq!(t, i64::MAX);
        assert_eq!(l, LEAF);
        assert_eq!(i, INTERMEDIATE);
        assert_eq!(roots, &vec![b"r1".to_vec(), b"r2".to_vec()]);
        ChainValidationOutcome::Valid(vec![1])
    });
    assert_eq!(res, Ok(vec![1]));
}

#[test]
fn verify_uses_the_clock_for_caching() {
    let mut verifier = ChainVerifier::new(vec![]);
    assert_eq!(verifier.verify(LEAF, INTERMEDIATE, None, true, valid(b"k")), Ok(b"k".to_vec()));
    assert_eq!(verifier.cache_len(), 1);
}

fn oids(list: &[&str]) -> Vec<String> {
    list.iter().map(|s| s.to_string()).collect()
}

#[test]
fn policy_requires_three_certificates_with_apple_oids() {
    let leaf = oids(&["2.5.29.15", "1.2.840.113635.100.6.11.1"]);
    let intermediate = oids(&["1.2.840.113635.100.6.2.1"]);
    let root = oids(&[]);
    assert_eq!(app_store_chain_policy(&vec![leaf.clone(), intermediate.clone(), root.clone()]), Ok(()));
    assert_eq!(
        app_store_chain_policy(&vec![leaf.clone(), intermediate.clone()]),
        Err("chain has unexpected length".to_string())
    );
    assert_eq!(
        app_store_chain_policy(&vec![leaf.clone(), root.clone(), root.clone()]),
        Err("intermediate certificate does not contain WWDR OID".to_string())
    );
    assert_eq!(
        app_store_chain_policy(&vec![root.clone(), intermediate.clone(), root.clone()]),
        Err("leaf certificate does not contain Receipt Signing OID".to_string())
    );
}

#[test]
fn chain_errors_render() {
    assert_eq!(ChainVerificationFailureReason::InvalidEffectiveDate.to_string(), "InvalidEnvironment");
    assert_eq!(
        ChainVerifierError::VerificationFailure(ChainVerificationFailureReason::CertificateRevoked).to_string(),
        "VerificationFailure: [CertificateRevoked]"
    );
    assert_eq!(ChainVerifierError::InternalError("x".to_string()).to_string(), "InternalError: [x]");
}

#[test]
fn without_an_effective_date_the_injected_time_is_used() {
    let mut verifier = ChainVerifier::new(vec![]);
    let res = verifier.verify_at(LEAF, INTERMEDIATE, None, false, 1_234_567, |_: &[u8], _: &[u8], _: &Vec<Vec<u8>>, t: i64| {
        assert_eq!(t, 1_234_567);
        ChainValidationOutcome::Valid(vec![7])
    });
    assert_eq!(res, Ok(vec![7]));
    let res = verifier.verify_at(LEAF, INTERMEDIATE, Some(42), false, 1_234_567, |_: &[u8], _: &[u8], _: &Vec<Vec<u8>>, t: i64| {
        assert_eq!(t, 42);
        ChainValidationOutcome::Valid(vec![8])
    });
    assert_eq!(res, Ok(vec![8]));
}

#[test]
fn cache_size_grows_only_on_online_success() {
    let mut verifier = ChainVerifier::new(vec![]);
    let rejected = |_: &[u8], _: &[u8], _: &Vec<Vec<u8>>, _: i64| ChainValidationOutcome::Rejected(vec!["no".to_string()]);
    assert!(verifier.verify_at(LEAF, INTERMEDIATE, None, true, 10, rejected).is_err());
    assert_eq!(verifier.cache_len(), 0);
    verifier.verify_at(LEAF, INTERMEDIATE, None, false, 10, valid(b"k")).unwrap();
    assert_eq!(verifier.cache_len(), 0);
    verifier.verify_at(LEAF, INTERMEDIATE, None, true, 10, valid(b"k")).unwrap();
    assert_eq!(verifier.cache_len(), 1);
    verifier.verify_at(b"other leaf", INTERMEDIATE, None, true, 10, valid(b"k2")).unwrap();
    assert_eq!(verifier.cache_len(), 2);
}
