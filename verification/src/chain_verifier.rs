//! Verification of Apple certificate chains, with a short-lived cache of the
//! public keys of chains that verified.
use vstd::prelude::*;
use vstd::slice::slice_to_vec;

verus! {

/// Why a chain was not accepted.
#[derive(Debug, PartialEq, Eq, Clone, Copy, Structural)]
pub enum ChainVerificationFailureReason {
    InvalidAppIdentifier,
    InvalidIssuer,
    InvalidCertificate,
    InvalidChainLength,
    InvalidChain,
    InvalidEffectiveDate,
    CertificateExpired,
    CertificateRevoked,
    RetryableVerificationFailure,
}

impl ChainVerificationFailureReason {
    /// The rendered reason.
    pub fn to_string(&self) -> (s: String)
        ensures
            s@ == reason_text(*self),
    {
        match self {
            ChainVerificationFailureReason::InvalidAppIdentifier => String::from_str("InvalidAppIdentifier"),
            ChainVerificationFailureReason::InvalidIssuer => String::from_str("InvalidIssuer"),
            ChainVerificationFailureReason::InvalidCertificate => String::from_str("InvalidCertificate"),
            ChainVerificationFailureReason::InvalidChainLength => String::from_str("InvalidChainLength"),
            ChainVerificationFailureReason::InvalidChain => String::from_str("InvalidChain"),
            ChainVerificationFailureReason::InvalidEffectiveDate => String::from_str("InvalidEnvironment"),
            ChainVerificationFailureReason::CertificateExpired => String::from_str("CertificateExpired"),
            ChainVerificationFailureReason::CertificateRevoked => String::from_str("CertificateRevoked"),
            ChainVerificationFailureReason::RetryableVerificationFailure => String::from_str(
                "RetryableVerificationFailure",
            ),
        }
    }
}

/// The text each failure reason renders as.
pub open spec fn reason_text(r: ChainVerificationFailureReason) -> Seq<char> {
    match r {
        ChainVerificationFailureReason::InvalidAppIdentifier => "InvalidAppIdentifier"@,
        ChainVerificationFailureReason::InvalidIssuer => "InvalidIssuer"@,
        ChainVerificationFailureReason::InvalidCertificate => "InvalidCertificate"@,
        ChainVerificationFailureReason::InvalidChainLength => "InvalidChainLength"@,
        ChainVerificationFailureReason::InvalidChain => "InvalidChain"@,
        ChainVerificationFailureReason::InvalidEffectiveDate => "InvalidEnvironment"@,
        ChainVerificationFailureReason::CertificateExpired => "CertificateExpired"@,
        ChainVerificationFailureReason::CertificateRevoked => "CertificateRevoked"@,
        ChainVerificationFailureReason::RetryableVerificationFailure => "RetryableVerificationFailure"@,
    }
}

/// Errors of chain verification.
#[derive(Debug, PartialEq)]
pub enum ChainVerifierError {
    VerificationFailure(ChainVerificationFailureReason),
    InternalError(String),
    InternalDecodeError(String),
    InternalX509Error(String),
}

impl ChainVerifierError {
    /// The rendered error.
    pub fn to_string(&self) -> (s: String)
        ensures
            s@ == match self {
                ChainVerifierError::VerificationFailure(r) => "VerificationFailure: ["@ + reason_text(*r) + "]"@,
                ChainVerifierError::InternalError(m) => "InternalError: ["@ + m@ + "]"@,
                ChainVerifierError::InternalDecodeError(m) => "InternalDecodeError: ["@ + m@ + "]"@,
                ChainVerifierError::InternalX509Error(m) => "InternalX509Error: ["@ + m@ + "]"@,
            },
    {
        let (mut s, inner) = match self {
            ChainVerifierError::VerificationFailure(r) => (String::from_str("VerificationFailure: ["), r.to_string()),
            ChainVerifierError::InternalError(m) => (String::from_str("InternalError: ["), m.clone()),
            ChainVerifierError::InternalDecodeError(m) => (String::from_str("InternalDecodeError: ["), m.clone()),
            ChainVerifierError::InternalX509Error(m) => (String::from_str("InternalX509Error: ["), m.clone()),
        };
        s.append(inner.as_str());
        s.append("]");
        s
    }
}


/// Whether two byte strings are equal.
pub(crate) fn bytes_equal(a: &[u8], b: &[u8]) -> (r: bool)
    ensures
        r == (a@ == b@),
{
    if a.len() != b.len() {
        return false;
    }
    let mut i: usize = 0;
    while i < a.len()
        invariant
            a@.len() == b@.len(),
            i <= a@.len(),
            forall|j: int| 0 <= j < i ==> a@[j] == b@[j],
        decreases a@.len() - i,
    {
        if a[i] != b[i] {
            return false;
        }
        i += 1;
    }
    assert(a@ =~= b@);
    true
}

/// The leaf's Apple receipt-signing OID.
pub const APPLE_RECEIPT_SIGNER_OID: &'static str = "1.2.840.113635.100.6.11.1";

/// The intermediate's Apple WWDR OID.
pub const APPLE_WWDR_INTERMEDIATE_OID: &'static str = "1.2.840.113635.100.6.2.1";

/// leaf, intermediate, root.
pub const EXPECTED_CHAIN_LENGTH: usize = 3;

/// There are unlikely to be more than a couple of keys at once.
pub const MAXIMUM_CACHE_SIZE: usize = 32;

/// 15 minutes, in seconds.
pub const CACHE_TIME_LIMIT: u64 = 900;

/// A cached verification: the chain it was made for, when it expires, and the key it yielded.
struct CacheEntry {
    leaf: Vec<u8>,
    intermediate: Vec<u8>,
    expiration_time: u64,
    public_key: Vec<u8>,
}

/// The chain a cache entry is keyed by: the leaf and intermediate certificates.
pub type ChainKey = (Seq<u8>, Seq<u8>);

/// What the cache holds for a chain: the expiration time and the public key.
pub type CachedKey = (u64, Seq<u8>);

spec fn entry_key(e: CacheEntry) -> ChainKey {
    (e.leaf@, e.intermediate@)
}

spec fn entry_value(e: CacheEntry) -> CachedKey {
    (e.expiration_time, e.public_key@)
}

spec fn entries_map(s: Seq<CacheEntry>) -> Map<ChainKey, CachedKey>
    decreases s.len(),
{
    if s.len() == 0 {
        Map::empty()
    } else {
        entries_map(s.drop_last()).insert(entry_key(s.last()), entry_value(s.last()))
    }
}

spec fn keys_distinct(s: Seq<CacheEntry>) -> bool {
    forall|i: int, j: int| 0 <= i < j < s.len() ==> entry_key(s[i]) != entry_key(s[j])
}

proof fn lemma_entries_map(s: Seq<CacheEntry>)
    requires
        keys_distinct(s),
    ensures
        entries_map(s).dom().finite(),
        entries_map(s).len() == s.len(),
        forall|k: ChainKey|
            entries_map(s).dom().contains(k) <==> exists|i: int| 0 <= i < s.len() && entry_key(s[i]) == k,
        forall|i: int| 0 <= i < s.len() ==> #[trigger] entries_map(s)[entry_key(s[i])] == entry_value(s[i]),
    decreases s.len(),
{
    if s.len() > 0 {
        let p = s.drop_last();
        assert(keys_distinct(p));
        lemma_entries_map(p);
        let k = entry_key(s.last());
        assert(!entries_map(p).dom().contains(k)) by {
            if entries_map(p).dom().contains(k) {
                let i = choose|i: int| 0 <= i < p.len() && entry_key(p[i]) == k;
                assert(entry_key(s[i]) == entry_key(s[s.len() - 1]));
            }
        }
        assert forall|k2: ChainKey| entries_map(s).dom().contains(k2) <==> exists|i: int|
            0 <= i < s.len() && entry_key(s[i]) == k2 by {
            if entries_map(s).dom().contains(k2) && k2 != k {
                let i = choose|i: int| 0 <= i < p.len() && entry_key(p[i]) == k2;
                assert(entry_key(s[i]) == k2);
            }
            if exists|i: int| 0 <= i < s.len() && entry_key(s[i]) == k2 {
                let i = choose|i: int| 0 <= i < s.len() && entry_key(s[i]) == k2;
                if i < s.len() - 1 {
                    assert(entry_key(p[i]) == k2);
                }
            }
        }
        assert forall|i: int| 0 <= i < s.len() implies #[trigger] entries_map(s)[entry_key(s[i])]
            == entry_value(s[i]) by {
            if i < s.len() - 1 {
                assert(entry_key(p[i]) == entry_key(s[i]));
                assert(entry_key(s[i]) != k);
            }
        }
    }
}

spec fn live_entry_from(e: CacheEntry, orig: Seq<CacheEntry>, lo: int, now: u64) -> bool {
    &&& e.expiration_time > now
    &&& exists|j: int| lo <= j < orig.len() && e == orig[j]
}

spec fn holds_entry(s: Seq<CacheEntry>, e: CacheEntry) -> bool {
    exists|i: int| 0 <= i < s.len() && s[i] == e
}

/// The key the cache offers for `key` at time `now`: the stored one while it has not expired.
pub open spec fn cache_lookup(cache: Map<ChainKey, CachedKey>, key: ChainKey, now: u64) -> Option<Seq<u8>> {
    if cache.dom().contains(key) && cache[key].0 > now {
        Some(cache[key].1)
    } else {
        None
    }
}

/// The cache after storing `public_key` for `key` at `now`: the entry lives for
/// `CACHE_TIME_LIMIT` seconds, and once the cache outgrows `MAXIMUM_CACHE_SIZE`
/// the entries that have expired by `now` are dropped.
pub open spec fn cache_store(cache: Map<ChainKey, CachedKey>, key: ChainKey, public_key: Seq<u8>, now: u64) -> Map<ChainKey, CachedKey> {
    let stored = cache.insert(key, ((now + CACHE_TIME_LIMIT) as u64, public_key));
    if stored.len() > MAXIMUM_CACHE_SIZE {
        stored.restrict(stored.dom().filter(|k: ChainKey| stored[k].0 > now))
    } else {
        stored
    }
}

/// Verifies Apple's certificate chains.
pub struct ChainVerifier {
    root_certificates: Vec<Vec<u8>>,
    verified_public_key_cache: Vec<CacheEntry>,
}

impl ChainVerifier {
    /// The trusted root certificates, DER-encoded.
    pub closed spec fn roots(&self) -> Seq<Seq<u8>> {
        self.root_certificates@.map_values(|r: Vec<u8>| r@)
    }

    /// The verified public keys held, by chain.
    pub closed spec fn cache(&self) -> Map<ChainKey, CachedKey> {
        entries_map(self.verified_public_key_cache@)
    }

    /// Well-formedness: each chain has at most one entry.
    pub closed spec fn wf(&self) -> bool {
        keys_distinct(self.verified_public_key_cache@)
    }

    /// Creates a verifier trusting the given DER-encoded root certificates.
    pub fn new(root_certificates: Vec<Vec<u8>>) -> (v: Self)
        ensures
            v.wf(),
            v.roots() == root_certificates@.map_values(|r: Vec<u8>| r@),
            v.cache() == Map::<ChainKey, CachedKey>::empty(),
    {
        ChainVerifier { root_certificates, verified_public_key_cache: Vec::new() }
    }

    /// The verified public key cached for the chain, if it has not expired by `now`.
    pub fn cached_public_key(&self, leaf: &[u8], intermediate: &[u8], now: u64) -> (res: Option<Vec<u8>>)
        requires
            self.wf(),
        ensures
            res is Some <==> cache_lookup(self.cache(), (leaf@, intermediate@), now) is Some,
            res matches Some(k) ==> cache_lookup(self.cache(), (leaf@, intermediate@), now) == Some(k@),
    {
        proof {
            lemma_entries_map(self.verified_public_key_cache@);
        }
        let ghost key = (leaf@, intermediate@);
        let ghost entries = self.verified_public_key_cache@;
        let mut i: usize = 0;
        while i < self.verified_public_key_cache.len()
            invariant
                entries == self.verified_public_key_cache@,
                key == (leaf@, intermediate@),
                keys_distinct(entries),
                i <= entries.len(),
                forall|j: int| 0 <= j < i ==> entry_key(entries[j]) != key,
            decreases entries.len() - i,
        {
            let entry = &self.verified_public_key_cache[i];
            assert(*entry == entries[i as int]);
            let same_leaf = bytes_equal(entry.leaf.as_slice(), leaf);
            assert(same_leaf == (entry.leaf@ == leaf@));
            let same_intermediate = bytes_equal(entry.intermediate.as_slice(), intermediate);
            if same_leaf && same_intermediate {
                assert(entry_key(entries[i as int]) == key);
                proof {
                    lemma_entries_map(entries);
                }
                assert(self.cache()[entry_key(entries[i as int])] == entry_value(entries[i as int]));
                if entry.expiration_time > now {
                    return Some(slice_to_vec(entry.public_key.as_slice()));
                } else {
                    return None;
                }
            }
            i += 1;
        }
        assert(!self.cache().dom().contains(key));
        None
    }

    /// Records `public_key` as the verified key of the chain at time `now`.
    pub fn store_public_key(&mut self, leaf: &[u8], intermediate: &[u8], public_key: &[u8], now: u64)
        requires
            old(self).wf(),
            now + CACHE_TIME_LIMIT <= u64::MAX,
        ensures
            final(self).wf(),
            final(self).roots() == old(self).roots(),
            final(self).root_certificates_held() == old(self).root_certificates_held(),
            final(self).cache() == cache_store(old(self).cache(), (leaf@, intermediate@), public_key@, now),
    {
        let ghost key = (leaf@, intermediate@);
        let ghost before = self.verified_public_key_cache@;
        proof {
            lemma_entries_map(before);
        }
        let entry = CacheEntry {
            leaf: slice_to_vec(leaf),
            intermediate: slice_to_vec(intermediate),
            expiration_time: now + CACHE_TIME_LIMIT,
            public_key: slice_to_vec(public_key),
        };
        let ghost value = entry_value(entry);
        assert(entry_key(entry) == key);
        let mut found: Option<usize> = None;
        let mut i: usize = 0;
        while i < self.verified_public_key_cache.len()
            invariant
                before == self.verified_public_key_cache@,
                key == (leaf@, intermediate@),
                i <= before.len(),
                found matches Some(j) ==> j < before.len() && entry_key(before[j as int]) == key,
                found is None ==> forall|j: int| 0 <= j < i ==> entry_key(before[j]) != key,
            ensures
                found matches Some(j) ==> j < before.len() && entry_key(before[j as int]) == key,
                found is None ==> forall|j: int| 0 <= j < before.len() ==> entry_key(before[j]) != key,
            decreases before.len() - i,
        {
            let e = &self.verified_public_key_cache[i];
            if bytes_equal(e.leaf.as_slice(), leaf) && bytes_equal(e.intermediate.as_slice(), intermediate) {
                found = Some(i);
                break;
            }
            i += 1;
        }
        proof {
            lemma_entries_map(before);
        }
        let ghost expected = self.cache().insert(key, value);
        match found {
            Some(j) => {
                self.verified_public_key_cache.set(j, entry);
                proof {
                    let after = self.verified_public_key_cache@;
                    assert(after == before.update(j as int, entry));
                    assert(keys_distinct(after)) by {
                        assert forall|a: int, b: int| 0 <= a < b < after.len() implies entry_key(after[a])
                            != entry_key(after[b]) by {
                            if a != j && b != j {
                                assert(after[a] == before[a] && after[b] == before[b]);
                            } else if a == j {
                                assert(after[b] == before[b]);
                            } else {
                                assert(after[a] == before[a]);
                            }
                        }
                    }
                    lemma_entries_map(after);
                    assert(entries_map(after) =~= expected) by {
                        assert forall|k: ChainKey| #[trigger] entries_map(after).dom().contains(k)
                            <==> expected.dom().contains(k) by {
                            if entries_map(after).dom().contains(k) {
                                let a = choose|a: int| 0 <= a < after.len() && entry_key(after[a]) == k;
                                if a != j {
                                    assert(after[a] == before[a]);
                                    assert(entry_key(before[a]) == k);
                                    assert(entries_map(before).dom().contains(k));
                                }
                            }
                            if expected.dom().contains(k) {
                                if k == key {
                                    assert(entry_key(after[j as int]) == k);
                                } else {
                                    assert(entries_map(before).dom().contains(k));
                                    let a = choose|a: int| 0 <= a < before.len() && entry_key(before[a]) == k;
                                    assert(a != j);
                                    assert(after[a] == before[a]);
                                    assert(entry_key(after[a]) == k);
                                }
                            }
                        }
                        assert forall|k: ChainKey| #[trigger] entries_map(after).dom().contains(k)
                            implies entries_map(after)[k] == expected[k] by {
                            let a = choose|a: int| 0 <= a < after.len() && entry_key(after[a]) == k;
                            assert(entries_map(after)[entry_key(after[a])] == entry_value(after[a]));
                            if a != j {
                                assert(after[a] == before[a]);
                                assert(entries_map(before)[entry_key(before[a])] == entry_value(before[a]));
                            }
                        }
                    }
                }
            },
            None => {
                self.verified_public_key_cache.push(entry);
                proof {
                    let after = self.verified_public_key_cache@;
                    assert(after.drop_last() =~= before);
                    assert(keys_distinct(after));
                }
            },
        }
        proof {
            lemma_entries_map(self.verified_public_key_cache@);
        }
        if self.verified_public_key_cache.len() > MAXIMUM_CACHE_SIZE {
            self.retain_unexpired(now);
        }
    }

    /// Drops the entries that have expired by `now`.
    fn retain_unexpired(&mut self, now: u64)
        requires
            old(self).wf(),
        ensures
            final(self).wf(),
            final(self).roots() == old(self).roots(),
            final(self).root_certificates_held() == old(self).root_certificates_held(),
            final(self).cache() == old(self).cache().restrict(
                old(self).cache().dom().filter(|k: ChainKey| old(self).cache()[k].0 > now),
            ),
    {
        let ghost orig = self.verified_public_key_cache@;
        proof {
            lemma_entries_map(orig);
        }
        let mut rest: Vec<CacheEntry> = Vec::new();
        std::mem::swap(&mut rest, &mut self.verified_public_key_cache);
        let mut kept: Vec<CacheEntry> = Vec::new();
        while rest.len() > 0
            invariant
                rest@ == orig.subrange(0, rest@.len() as int),
                rest@.len() <= orig.len(),
                keys_distinct(orig),
                keys_distinct(kept@),
                forall|i: int|
                    0 <= i < kept@.len() ==> live_entry_from(#[trigger] kept@[i], orig, rest@.len() as int, now),
                forall|j: int|
                    rest@.len() <= j < orig.len() && orig[j].expiration_time > now ==> holds_entry(
                        kept@,
                        #[trigger] orig[j],
                    ),
            decreases rest@.len(),
        {
            let ghost n = rest@.len();
            let e = rest.pop().unwrap();
            assert(e == orig[n - 1]);
            let ghost k0 = kept@;
            if e.expiration_time > now {
                kept.push(e);
                assert(keys_distinct(kept@)) by {
                    assert forall|a: int, b: int| 0 <= a < b < kept@.len() implies entry_key(kept@[a])
                        != entry_key(kept@[b]) by {
                        if b == kept@.len() - 1 {
                            assert(live_entry_from(k0[a], orig, n as int, now));
                            let j = choose|j: int| n <= j < orig.len() && k0[a] == orig[j];
                            assert(kept@[a] == orig[j]);
                        } else {
                            assert(kept@[a] == k0[a] && kept@[b] == k0[b]);
                        }
                    }
                }
                assert forall|i: int| 0 <= i < kept@.len() implies live_entry_from(
                    #[trigger] kept@[i],
                    orig,
                    rest@.len() as int,
                    now,
                ) by {
                    if i < kept@.len() - 1 {
                        assert(kept@[i] == k0[i]);
                        assert(live_entry_from(k0[i], orig, n as int, now));
                    } else {
                        assert(kept@[i] == orig[n - 1]);
                    }
                }
                assert forall|j: int| rest@.len() <= j < orig.len() && orig[j].expiration_time > now
                    implies holds_entry(kept@, #[trigger] orig[j]) by {
                    if j == n - 1 {
                        assert(kept@[kept@.len() - 1] == orig[j]);
                    } else {
                        assert(holds_entry(k0, orig[j]));
                        let i = choose|i: int| 0 <= i < k0.len() && k0[i] == orig[j];
                        assert(kept@[i] == orig[j]);
                    }
                }
            } else {
                assert forall|i: int| 0 <= i < kept@.len() implies live_entry_from(
                    #[trigger] kept@[i],
                    orig,
                    rest@.len() as int,
                    now,
                ) by {
                    assert(live_entry_from(k0[i], orig, n as int, now));
                }
            }
        }
        self.verified_public_key_cache = kept;
        proof {
            let km = entries_map(kept@);
            let om = entries_map(orig);
            let expected = om.restrict(om.dom().filter(|k: ChainKey| om[k].0 > now));
            lemma_entries_map(kept@);
            assert forall|k: ChainKey| #[trigger] km.dom().contains(k) <==> expected.dom().contains(k) by {
                if km.dom().contains(k) {
                    let i = choose|i: int| 0 <= i < kept@.len() && entry_key(kept@[i]) == k;
                    assert(live_entry_from(kept@[i], orig, 0, now));
                    let j = choose|j: int| 0 <= j < orig.len() && kept@[i] == orig[j];
                    assert(om[entry_key(orig[j])] == entry_value(orig[j]));
                }
                if expected.dom().contains(k) {
                    let j = choose|j: int| 0 <= j < orig.len() && entry_key(orig[j]) == k;
                    assert(om[entry_key(orig[j])] == entry_value(orig[j]));
                    assert(holds_entry(kept@, orig[j]));
                    let i = choose|i: int| 0 <= i < kept@.len() && kept@[i] == orig[j];
                    assert(entry_key(kept@[i]) == k);
                }
            }
            assert forall|k: ChainKey| #[trigger] km.dom().contains(k) implies km[k] == expected[k] by {
                let i = choose|i: int| 0 <= i < kept@.len() && entry_key(kept@[i]) == k;
                assert(live_entry_from(kept@[i], orig, 0, now));
                let j = choose|j: int| 0 <= j < orig.len() && kept@[i] == orig[j];
                assert(km[entry_key(kept@[i])] == entry_value(kept@[i]));
                assert(om[entry_key(orig[j])] == entry_value(orig[j]));
            }
            assert(km =~= expected);
        }
    }

    /// A well-formed verifier holds finitely many entries.
    pub proof fn lemma_cache_finite(&self)
        requires
            self.wf(),
        ensures
            self.cache().dom().finite(),
    {
        lemma_entries_map(self.verified_public_key_cache@);
    }

    /// Number of entries currently held. Exposed for testing.
    pub fn cache_len(&self) -> (n: usize)
        requires
            self.wf(),
        ensures
            n == self.cache().len(),
            self.cache().dom().finite(),
    {
        proof {
            lemma_entries_map(self.verified_public_key_cache@);
        }
        self.verified_public_key_cache.len()
    }
}


/// Once a key is stored for a chain, the cache offers it for that chain until
/// `CACHE_TIME_LIMIT` seconds have passed, and not from then on.
pub proof fn lemma_store_then_lookup(
    cache: Map<ChainKey, CachedKey>,
    key: ChainKey,
    public_key: Seq<u8>,
    now: u64,
    later: u64,
)
    requires
        cache.dom().finite(),
        now + CACHE_TIME_LIMIT <= u64::MAX,
        now <= later,
    ensures
        later < now + CACHE_TIME_LIMIT ==> cache_lookup(cache_store(cache, key, public_key, now), key, later)
            == Some(public_key),
        later >= now + CACHE_TIME_LIMIT ==> cache_lookup(cache_store(cache, key, public_key, now), key, later)
            is None,
{
    let stored = cache.insert(key, ((now + CACHE_TIME_LIMIT) as u64, public_key));
    assert(stored[key].0 > now);
    if stored.len() > MAXIMUM_CACHE_SIZE {
        assert(stored.dom().filter(|k: ChainKey| stored[k].0 > now).contains(key));
    }
}

/// Storing a key for one chain never changes what the cache answers, from that
/// moment on, for any other chain: eviction only drops entries that have already expired.
pub proof fn lemma_store_preserves_other_chains(
    cache: Map<ChainKey, CachedKey>,
    key: ChainKey,
    public_key: Seq<u8>,
    now: u64,
    other: ChainKey,
    later: u64,
)
    requires
        cache.dom().finite(),
        now + CACHE_TIME_LIMIT <= u64::MAX,
        now <= later,
        other != key,
    ensures
        cache_lookup(cache_store(cache, key, public_key, now), other, later) == cache_lookup(cache, other, later),
{
    let stored = cache.insert(key, ((now + CACHE_TIME_LIMIT) as u64, public_key));
    if stored.len() > MAXIMUM_CACHE_SIZE && cache.dom().contains(other) && cache[other].0 > later {
        assert(stored.dom().filter(|k: ChainKey| stored[k].0 > now).contains(other));
    }
}

/// What the validator reports about a chain.
pub enum ChainValidationOutcome {
    /// The leaf or a root certificate could not be parsed.
    Unparsable,
    /// A chain validated; the leaf's DER-encoded SubjectPublicKeyInfo.
    Valid(Vec<u8>),
    /// No chain validated; the rendered reasons of the rejected candidates.
    Rejected(Vec<String>),
}

/// Whether `text` holds `word` somewhere.
pub open spec fn mentions(text: Seq<char>, word: Seq<char>) -> bool {
    exists|i: int| 0 <= i && i + word.len() <= text.len() && #[trigger] text.subrange(i, i + word.len()) == word
}

/// Whether some reason mentions an expired certificate.
pub open spec fn mentions_expired(reasons: Seq<Seq<char>>) -> bool {
    exists|i: int| 0 <= i < reasons.len() && mentions(#[trigger] reasons[i], "expired"@)
}

fn contains_word(text: &str, word: &str) -> (r: bool)
    ensures
        r == mentions(text@, word@),
{
    let n = text.unicode_len();
    let m = word.unicode_len();
    if m > n {
        return false;
    }
    let mut i: usize = 0;
    while i <= n - m
        invariant
            n == text@.len(),
            m == word@.len(),
            m <= n,
            i <= n - m + 1,
            forall|a: int| 0 <= a < i ==> #[trigger] text@.subrange(a, a + m) != word@,
        decreases n - m + 1 - i,
    {
        let mut j: usize = 0;
        let mut same = true;
        while j < m
            invariant
                n == text@.len(),
                m == word@.len(),
                i + m <= n,
                j <= m,
                same == (forall|b: int| 0 <= b < j ==> text@[i + b] == word@[b]),
            decreases m - j,
        {
            if text.get_char(i + j) != word.get_char(j) {
                same = false;
            }
            j += 1;
        }
        if same {
            assert(text@.subrange(i as int, i + m) =~= word@);
            return true;
        }
        assert(text@.subrange(i as int, i + m) != word@) by {
            let b = choose|b: int| 0 <= b < m && text@[i + b] != word@[b];
            assert(text@.subrange(i as int, i + m)[b] == text@[i + b]);
        }
        i += 1;
    }
    assert forall|a: int| 0 <= a && a + m <= n implies #[trigger] text@.subrange(a, a + m) != word@ by {
        assert(a < i);
    }
    false
}

fn any_reason_mentions_expired(reasons: &Vec<String>) -> (r: bool)
    ensures
        r == mentions_expired(reasons@.map_values(|s: String| s@)),
{
    let ghost views = reasons@.map_values(|s: String| s@);
    let mut i: usize = 0;
    while i < reasons.len()
        invariant
            views == reasons@.map_values(|s: String| s@),
            i <= reasons@.len(),
            forall|a: int| 0 <= a < i ==> !mentions(#[trigger] views[a], "expired"@),
        decreases reasons@.len() - i,
    {
        if contains_word(reasons[i].as_str(), "expired") {
            assert(mentions(views[i as int], "expired"@));
            return true;
        }
        i += 1;
    }
    false
}

/// The result verification yields for an outcome of the validator.
pub open spec fn outcome_result(outcome: ChainValidationOutcome) -> Result<Seq<u8>, ChainVerificationFailureReason> {
    match outcome {
        ChainValidationOutcome::Unparsable => Err(ChainVerificationFailureReason::InvalidCertificate),
        ChainValidationOutcome::Valid(k) => Ok(k@),
        ChainValidationOutcome::Rejected(reasons) => if mentions_expired(reasons@.map_values(|s: String| s@)) {
            Err(ChainVerificationFailureReason::CertificateExpired)
        } else {
            Err(ChainVerificationFailureReason::InvalidCertificate)
        },
    }
}

/// The view of a verification result.
pub open spec fn verification_view(r: Result<Vec<u8>, ChainVerifierError>) -> Result<Seq<u8>, ChainVerificationFailureReason> {
    match r {
        Ok(k) => Ok(k@),
        Err(ChainVerifierError::VerificationFailure(reason)) => Err(reason),
        Err(_) => Err(ChainVerificationFailureReason::InvalidChain),
    }
}

fn outcome_into_result(outcome: ChainValidationOutcome) -> (r: Result<Vec<u8>, ChainVerifierError>)
    ensures
        r matches Err(e) ==> e is VerificationFailure,
        verification_view(r) == outcome_result(outcome),
{
    match outcome {
        ChainValidationOutcome::Unparsable => Err(
            ChainVerifierError::VerificationFailure(ChainVerificationFailureReason::InvalidCertificate),
        ),
        ChainValidationOutcome::Valid(k) => Ok(k),
        ChainValidationOutcome::Rejected(reasons) => {
            if any_reason_mentions_expired(&reasons) {
                Err(ChainVerifierError::VerificationFailure(ChainVerificationFailureReason::CertificateExpired))
            } else {
                Err(ChainVerifierError::VerificationFailure(ChainVerificationFailureReason::InvalidCertificate))
            }
        },
    }
}


/// The validation time used for a given effective date: the date itself, capped at `i64::MAX`.
pub open spec fn effective_validation_time(date: u64) -> i64 {
    if date <= i64::MAX {
        date as i64
    } else {
        i64::MAX
    }
}

/// The validation time for verifying at time `now`: the effective date where one is
/// given, else `now`, capped at `i64::MAX`.
pub open spec fn validation_time_for(effective_date: Option<u64>, now: u64) -> i64 {
    match effective_date {
        Some(d) => effective_validation_time(d),
        None => effective_validation_time(now),
    }
}

/// `SystemTime::now().duration_since(UNIX_EPOCH)` in whole seconds, `None` when the
/// clock reads before the epoch. Nothing is claimed of the value: it is the machine's clock.
#[verifier::external_body]
fn seconds_since_unix_epoch() -> Option<u64> {
    std::time::SystemTime::now().duration_since(std::time::UNIX_EPOCH).ok().map(|d| d.as_secs())
}

/// Whether `oids` holds `oid`.
pub open spec fn lists_oid(oids: Seq<String>, oid: Seq<char>) -> bool {
    exists|i: int| 0 <= i < oids.len() && (#[trigger] oids[i])@ == oid
}

fn has_oid(oids: &Vec<String>, oid: &str) -> (r: bool)
    ensures
        r == lists_oid(oids@, oid@),
{
    let wanted = String::from_str(oid);
    let mut i: usize = 0;
    while i < oids.len()
        invariant
            wanted@ == oid@,
            i <= oids@.len(),
            forall|a: int| 0 <= a < i ==> (#[trigger] oids@[a])@ != oid@,
        decreases oids@.len() - i,
    {
        if oids[i] == wanted {
            return true;
        }
        i += 1;
    }
    false
}

/// What the App Store policy says of a candidate chain, given the extension OIDs of
/// its certificates (leaf first): nothing against it, or the reason it fails.
pub open spec fn app_store_policy_result(chain: Seq<Seq<String>>) -> Result<(), Seq<char>> {
    if chain.len() != EXPECTED_CHAIN_LENGTH {
        Err("chain has unexpected length"@)
    } else if !lists_oid(chain[1], APPLE_WWDR_INTERMEDIATE_OID@) {
        Err("intermediate certificate does not contain WWDR OID"@)
    } else if !lists_oid(chain[0], APPLE_RECEIPT_SIGNER_OID@) {
        Err("leaf certificate does not contain Receipt Signing OID"@)
    } else {
        Ok(())
    }
}

/// The App Store policy on candidate chains: leaf, intermediate and root, the
/// intermediate carrying Apple's WWDR OID and the leaf the receipt-signing OID.
/// `chain_extension_oids` lists, leaf first, the dotted extension OIDs of each certificate.
pub fn app_store_chain_policy(chain_extension_oids: &Vec<Vec<String>>) -> (res: Result<(), String>)
    ensures
        res matches Ok(_) ==> app_store_policy_result(chain_extension_oids@.map_values(|c: Vec<String>| c@))
            is Ok,
        res matches Err(m) ==> app_store_policy_result(chain_extension_oids@.map_values(|c: Vec<String>| c@))
            == Err::<(), Seq<char>>(m@),
{
    let ghost chain = chain_extension_oids@.map_values(|c: Vec<String>| c@);
    if chain_extension_oids.len() != EXPECTED_CHAIN_LENGTH {
        return Err(String::from_str("chain has unexpected length"));
    }
    assert(chain[1] == chain_extension_oids@[1]@);
    assert(chain[0] == chain_extension_oids@[0]@);
    if !has_oid(&chain_extension_oids[1], APPLE_WWDR_INTERMEDIATE_OID) {
        return Err(String::from_str("intermediate certificate does not contain WWDR OID"));
    }
    if !has_oid(&chain_extension_oids[0], APPLE_RECEIPT_SIGNER_OID) {
        return Err(String::from_str("leaf certificate does not contain Receipt Signing OID"));
    }
    Ok(())
}

impl ChainVerifier {
    /// The trusted root certificates, as held.
    pub closed spec fn root_certificates_held(&self) -> Vec<Vec<u8>> {
        self.root_certificates
    }

    fn verify_without_caching<F>(
        &self,
        leaf: &[u8],
        intermediate: &[u8],
        effective_date: Option<u64>,
        now: u64,
        validate: F,
    ) -> (res: Result<Vec<u8>, ChainVerifierError>)
        where
            F: FnOnce(&[u8], &[u8], &Vec<Vec<u8>>, i64) -> ChainValidationOutcome,
        requires
            forall|t: i64| validate.requires((leaf, intermediate, &self.root_certificates_held(), t)),
        ensures
            res matches Err(e) ==> e is VerificationFailure,
            exists|outcome: ChainValidationOutcome|
                {
                    &&& validate.ensures(
                        (leaf, intermediate, &self.root_certificates_held(), validation_time_for(effective_date, now)),
                        outcome,
                    )
                    &&& verification_view(res) == outcome_result(outcome)
                },
    {
        let date = match effective_date {
            Some(d) => d,
            None => now,
        };
        let validation_time: i64 = if date <= i64::MAX as u64 {
            date as i64
        } else {
            i64::MAX
        };
        let outcome = validate(leaf, intermediate, &self.root_certificates, validation_time);
        let ghost seen = outcome;
        let res = outcome_into_result(outcome);
        assert(validate.ensures((leaf, intermediate, &self.root_certificates_held(), validation_time), seen));
        res
    }
}


/// Whether caching is in effect at time `now`: online checks were asked for, and an
/// entry stored now can still carry its expiration time.
pub open spec fn caching_enabled_at(enable_online_checks: bool, now: u64) -> bool {
    enable_online_checks && now + CACHE_TIME_LIMIT <= u64::MAX
}

impl ChainVerifier {
    /// What verifying the chain at time `now` yields and leaves in the cache:
    /// with online checks a fresh cached key is returned as is; otherwise the
    /// validator is asked, at the effective date or else at `now`, and with online
    /// checks a key that verified is cached.
    pub open spec fn verify_at_post<F>(
        &self,
        after: &Self,
        leaf: Seq<u8>,
        intermediate: Seq<u8>,
        effective_date: Option<u64>,
        enable_online_checks: bool,
        now: u64,
        validate: F,
        leaf_arg: &[u8],
        intermediate_arg: &[u8],
        res: Result<Vec<u8>, ChainVerifierError>,
    ) -> bool
        where
            F: FnOnce(&[u8], &[u8], &Vec<Vec<u8>>, i64) -> ChainValidationOutcome,
    {
        &&& after.wf()
        &&& after.roots() == self.roots()
        &&& after.root_certificates_held() == self.root_certificates_held()
        &&& (res matches Err(e) ==> e is VerificationFailure)
        &&& if enable_online_checks && cache_lookup(self.cache(), (leaf, intermediate), now) is Some {
            &&& res is Ok
            &&& Some(res->Ok_0@) == cache_lookup(self.cache(), (leaf, intermediate), now)
            &&& after.cache() == self.cache()
        } else {
            &&& exists|outcome: ChainValidationOutcome|
                {
                    &&& validate.ensures(
                        (
                            leaf_arg,
                            intermediate_arg,
                            &self.root_certificates_held(),
                            validation_time_for(effective_date, now),
                        ),
                        outcome,
                    )
                    &&& verification_view(res) == outcome_result(outcome)
                }
            &&& after.cache() == if enable_online_checks && res is Ok {
                cache_store(self.cache(), (leaf, intermediate), res->Ok_0@, now)
            } else {
                self.cache()
            }
        }
    }

    /// [`ChainVerifier::verify`], with the current time injected. Exposed for
    /// deterministic testing of cache expiry. `validate` builds and checks the chain
    /// from the leaf, the intermediate, the trusted roots and the validation time.
    pub fn verify_at<F>(
        &mut self,
        leaf: &[u8],
        intermediate: &[u8],
        effective_date: Option<u64>,
        enable_online_checks: bool,
        now: u64,
        validate: F,
    ) -> (res: Result<Vec<u8>, ChainVerifierError>)
        where
            F: FnOnce(&[u8], &[u8], &Vec<Vec<u8>>, i64) -> ChainValidationOutcome,
        requires
            old(self).wf(),
            enable_online_checks ==> now + CACHE_TIME_LIMIT <= u64::MAX,
            forall|t: i64| validate.requires((leaf, intermediate, &old(self).root_certificates_held(), t)),
        ensures
            old(self).verify_at_post(
                final(self),
                leaf@,
                intermediate@,
                effective_date,
                enable_online_checks,
                now,
                validate,
                leaf,
                intermediate,
                res,
            ),
    {
        if enable_online_checks {
            if let Some(cached) = self.cached_public_key(leaf, intermediate, now) {
                return Ok(cached);
            }
        }

        let public_key = self.verify_without_caching(leaf, intermediate, effective_date, now, validate)?;

        if enable_online_checks {
            self.store_public_key(leaf, intermediate, public_key.as_slice(), now);
        }

        Ok(public_key)
    }

    /// Verifies the chain and returns the leaf's DER-encoded SubjectPublicKeyInfo.
    ///
    /// `effective_date` is an optional Unix timestamp for validity checks;
    /// `enable_online_checks` caches the verified public key, as the official Apple
    /// libraries do. Revocation checking is not performed.
    pub fn verify<F>(
        &mut self,
        leaf: &[u8],
        intermediate: &[u8],
        effective_date: Option<u64>,
        enable_online_checks: bool,
        validate: F,
    ) -> (res: Result<Vec<u8>, ChainVerifierError>)
        where
            F: FnOnce(&[u8], &[u8], &Vec<Vec<u8>>, i64) -> ChainValidationOutcome,
        requires
            old(self).wf(),
            forall|t: i64| validate.requires((leaf, intermediate, &old(self).root_certificates_held(), t)),
        ensures
            exists|now: u64|
                #[trigger] old(self).verify_at_post(
                    final(self),
                    leaf@,
                    intermediate@,
                    effective_date,
                    caching_enabled_at(enable_online_checks, now),
                    now,
                    validate,
                    leaf,
                    intermediate,
                    res,
                ),
    {
        let reading = seconds_since_unix_epoch();
        let res = self.verify_with_clock_reading(leaf, intermediate, effective_date, enable_online_checks, reading, validate);
        proof {
            let now: u64 = match reading {
                Some(seconds) => seconds,
                None => 0,
            };
            assert(old(self).verify_at_post(
                final(self),
                leaf@,
                intermediate@,
                effective_date,
                caching_enabled_at(enable_online_checks, now),
                now,
                validate,
                leaf,
                intermediate,
                res,
            ));
        }
        res
    }

    /// [`ChainVerifier::verify`] given what the clock read: the whole seconds since the
    /// Unix epoch, or `None` for a clock before the epoch, which counts as time 0. The
    /// chain is verified at the time read, and caching is on when online checks were
    /// asked for and an entry stored then can carry its expiration time.
    pub fn verify_with_clock_reading<F>(
        &mut self,
        leaf: &[u8],
        intermediate: &[u8],
        effective_date: Option<u64>,
        enable_online_checks: bool,
        clock_reading: Option<u64>,
        validate: F,
    ) -> (res: Result<Vec<u8>, ChainVerifierError>)
        where
            F: FnOnce(&[u8], &[u8], &Vec<Vec<u8>>, i64) -> ChainValidationOutcome,
        requires
            old(self).wf(),
            forall|t: i64| validate.requires((leaf, intermediate, &old(self).root_certificates_held(), t)),
        ensures
            clock_reading matches Some(seconds) ==> old(self).verify_at_post(
                final(self),
                leaf@,
                intermediate@,
                effective_date,
                enable_online_checks && seconds + CACHE_TIME_LIMIT <= u64::MAX,
                seconds,
                validate,
                leaf,
                intermediate,
                res,
            ),
            clock_reading is None ==> old(self).verify_at_post(
                final(self),
                leaf@,
                intermediate@,
                effective_date,
                enable_online_checks,
                0,
                validate,
                leaf,
                intermediate,
                res,
            ),
    {
        let now = match clock_reading {
            Some(secs) => secs,
            None => 0,
        };
        let online = enable_online_checks && now <= u64::MAX - CACHE_TIME_LIMIT;
        self.verify_at(leaf, intermediate, effective_date, online, now, validate)
    }
}


/// Storing a key for a chain at `now`: the cache then offers that key for the chain
/// until `CACHE_TIME_LIMIT` seconds have passed; every other chain keeps its entry,
/// except that, once the cache has outgrown `MAXIMUM_CACHE_SIZE`, entries that have
/// expired by `now` are dropped; without such growth the cache gains exactly the
/// entries it did not hold.
pub proof fn lemma_store_public_key_law(
    before: ChainVerifier,
    after: ChainVerifier,
    leaf: Seq<u8>,
    intermediate: Seq<u8>,
    public_key: Seq<u8>,
    now: u64,
)
    requires
        before.wf(),
        now + CACHE_TIME_LIMIT <= u64::MAX,
        after.cache() == cache_store(before.cache(), (leaf, intermediate), public_key, now),
    ensures
        forall|later: u64|
            later < now + CACHE_TIME_LIMIT ==> #[trigger] cache_lookup(after.cache(), (leaf, intermediate), later)
                == Some(public_key),
        forall|other: ChainKey|
            other != (leaf, intermediate) ==> (#[trigger] after.cache().dom().contains(other) <==> (
            before.cache().dom().contains(other) && (before.cache().insert(
                (leaf, intermediate),
                ((now + CACHE_TIME_LIMIT) as u64, public_key),
            ).len() <= MAXIMUM_CACHE_SIZE || before.cache()[other].0 > now))),
        forall|other: ChainKey|
            other != (leaf, intermediate) && #[trigger] after.cache().dom().contains(other) ==> after.cache()[other]
                == before.cache()[other],
        ({
            let grown = before.cache().len() + if before.cache().dom().contains((leaf, intermediate)) {
                0int
            } else {
                1int
            };
            grown <= MAXIMUM_CACHE_SIZE ==> after.cache().len() == grown
        }),
{
    before.lemma_cache_finite();
    let key = (leaf, intermediate);
    let cache = before.cache();
    let stored = cache.insert(key, ((now + CACHE_TIME_LIMIT) as u64, public_key));
    assert forall|later: u64| later < now + CACHE_TIME_LIMIT implies #[trigger] cache_lookup(
        after.cache(),
        key,
        later,
    ) == Some(public_key) by {
        assert(stored[key].0 > later);
        if stored.len() > MAXIMUM_CACHE_SIZE {
            assert(stored.dom().filter(|k: ChainKey| stored[k].0 > now).contains(key));
        }
    }
    if cache.dom().contains(key) {
        assert(stored.dom() =~= cache.dom());
    } else {
        assert(stored.dom() =~= cache.dom().insert(key));
    }
}

/// Verifying a chain that the cache holds no entry for, with online checks, adds one
/// entry exactly when the verification succeeds (while the cache is below
/// `MAXIMUM_CACHE_SIZE`); without online checks, or when it fails, the cache keeps its size.
pub proof fn lemma_cache_len_after_verify_at<F>(
    before: ChainVerifier,
    after: ChainVerifier,
    leaf: Seq<u8>,
    intermediate: Seq<u8>,
    effective_date: Option<u64>,
    enable_online_checks: bool,
    now: u64,
    validate: F,
    leaf_arg: &[u8],
    intermediate_arg: &[u8],
    res: Result<Vec<u8>, ChainVerifierError>,
)
    where
        F: FnOnce(&[u8], &[u8], &Vec<Vec<u8>>, i64) -> ChainValidationOutcome,
    requires
        before.wf(),
        enable_online_checks ==> now + CACHE_TIME_LIMIT <= u64::MAX,
        !before.cache().dom().contains((leaf, intermediate)),
        before.cache().len() < MAXIMUM_CACHE_SIZE,
        before.verify_at_post(
            &after,
            leaf,
            intermediate,
            effective_date,
            enable_online_checks,
            now,
            validate,
            leaf_arg,
            intermediate_arg,
            res,
        ),
    ensures
        after.cache().len() == if enable_online_checks && res is Ok {
            before.cache().len() + 1
        } else {
            before.cache().len()
        },
{
    before.lemma_cache_finite();
    if enable_online_checks && res is Ok {
        let key = (leaf, intermediate);
        let stored = before.cache().insert(key, ((now + CACHE_TIME_LIMIT) as u64, res->Ok_0@));
        assert(stored.dom() =~= before.cache().dom().insert(key));
    }
}

/// A key that verified online, not from the cache, is served from the cache to the
/// next online verification of the same chain for `CACHE_TIME_LIMIT` seconds, leaving
/// the cache as it is; from then on that verification asks the validator again.
pub proof fn lemma_verified_key_is_served_from_cache<F, G>(
    first: ChainVerifier,
    second: ChainVerifier,
    third: ChainVerifier,
    leaf: Seq<u8>,
    intermediate: Seq<u8>,
    first_date: Option<u64>,
    second_date: Option<u64>,
    first_now: u64,
    second_now: u64,
    first_validate: F,
    second_validate: G,
    first_leaf: &[u8],
    first_intermediate: &[u8],
    second_leaf: &[u8],
    second_intermediate: &[u8],
    first_res: Result<Vec<u8>, ChainVerifierError>,
    second_res: Result<Vec<u8>, ChainVerifierError>,
)
    where
        F: FnOnce(&[u8], &[u8], &Vec<Vec<u8>>, i64) -> ChainValidationOutcome,
        G: FnOnce(&[u8], &[u8], &Vec<Vec<u8>>, i64) -> ChainValidationOutcome,
    requires
        first.wf(),
        first_now + CACHE_TIME_LIMIT <= u64::MAX,
        cache_lookup(first.cache(), (leaf, intermediate), first_now) is None,
        first.verify_at_post(
            &second,
            leaf,
            intermediate,
            first_date,
            true,
            first_now,
            first_validate,
            first_leaf,
            first_intermediate,
            first_res,
        ),
        first_res is Ok,
        second.verify_at_post(
            &third,
            leaf,
            intermediate,
            second_date,
            true,
            second_now,
            second_validate,
            second_leaf,
            second_intermediate,
            second_res,
        ),
    ensures
        second_now < first_now + CACHE_TIME_LIMIT ==> {
            &&& second_res is Ok
            &&& second_res->Ok_0@ == first_res->Ok_0@
            &&& third.cache() == second.cache()
        },
        second_now >= first_now + CACHE_TIME_LIMIT ==> exists|outcome: ChainValidationOutcome|
            {
                &&& second_validate.ensures(
                    (
                        second_leaf,
                        second_intermediate,
                        &second.root_certificates_held(),
                        validation_time_for(second_date, second_now),
                    ),
                    outcome,
                )
                &&& verification_view(second_res) == outcome_result(outcome)
            },
{
    first.lemma_cache_finite();
    let key = (leaf, intermediate);
    let pk = first_res->Ok_0@;
    let stored = first.cache().insert(key, ((first_now + CACHE_TIME_LIMIT) as u64, pk));
    assert(stored[key].0 > first_now);
    if stored.len() > MAXIMUM_CACHE_SIZE {
        assert(stored.dom().filter(|k: ChainKey| stored[k].0 > first_now).contains(key));
    }
    assert(second.cache().dom().contains(key));
    assert(second.cache()[key] == ((first_now + CACHE_TIME_LIMIT) as u64, pk));
}


/// An entry that has not expired by `now` outlives any verification made at `now`, for
/// its own chain or another, with online checks or without: the cache still holds it,
/// unchanged. Calls made in time order thus keep serving a cached key until it expires.
pub proof fn lemma_unexpired_entry_survives_verification<F>(
    before: ChainVerifier,
    after: ChainVerifier,
    cached: ChainKey,
    leaf: Seq<u8>,
    intermediate: Seq<u8>,
    effective_date: Option<u64>,
    enable_online_checks: bool,
    now: u64,
    validate: F,
    leaf_arg: &[u8],
    intermediate_arg: &[u8],
    res: Result<Vec<u8>, ChainVerifierError>,
)
    where
        F: FnOnce(&[u8], &[u8], &Vec<Vec<u8>>, i64) -> ChainValidationOutcome,
    requires
        before.wf(),
        enable_online_checks ==> now + CACHE_TIME_LIMIT <= u64::MAX,
        before.cache().dom().contains(cached),
        before.cache()[cached].0 > now,
        before.verify_at_post(
            &after,
            leaf,
            intermediate,
            effective_date,
            enable_online_checks,
            now,
            validate,
            leaf_arg,
            intermediate_arg,
            res,
        ),
    ensures
        after.cache().dom().contains(cached),
        after.cache()[cached] == before.cache()[cached],
{
    before.lemma_cache_finite();
    let key = (leaf, intermediate);
    if enable_online_checks && cache_lookup(before.cache(), key, now) is None && res is Ok {
        assert(key != cached);
        let stored = before.cache().insert(key, ((now + CACHE_TIME_LIMIT) as u64, res->Ok_0@));
        assert(stored[cached] == before.cache()[cached]);
        if stored.len() > MAXIMUM_CACHE_SIZE {
            assert(stored.dom().filter(|k: ChainKey| stored[k].0 > now).contains(cached));
        }
    }
}


/// Without an effective date, a verification that asks the validator asks it at the
/// time of the call: the validator receives `now` itself (capped at `i64::MAX`), and
/// the result is what the validator reported.
pub proof fn lemma_validation_happens_at_call_time<F>(
    before: ChainVerifier,
    after: ChainVerifier,
    leaf: Seq<u8>,
    intermediate: Seq<u8>,
    enable_online_checks: bool,
    now: u64,
    validate: F,
    leaf_arg: &[u8],
    intermediate_arg: &[u8],
    res: Result<Vec<u8>, ChainVerifierError>,
)
    where
        F: FnOnce(&[u8], &[u8], &Vec<Vec<u8>>, i64) -> ChainValidationOutcome,
    requires
        !(enable_online_checks && cache_lookup(before.cache(), (leaf, intermediate), now) is Some),
        before.verify_at_post(
            &after,
            leaf,
            intermediate,
            None,
            enable_online_checks,
            now,
            validate,
            leaf_arg,
            intermediate_arg,
            res,
        ),
    ensures
        exists|outcome: ChainValidationOutcome|
            {
                &&& validate.ensures(
                    (
                        leaf_arg,
                        intermediate_arg,
                        &before.root_certificates_held(),
                        if now <= i64::MAX as u64 {
                            now as i64
                        } else {
                            i64::MAX
                        },
                    ),
                    outcome,
                )
                &&& verification_view(res) == outcome_result(outcome)
            },
{
}

} // verus!
