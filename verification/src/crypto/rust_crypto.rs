//! The RustCrypto backend: P-256 keys held as plain bytes, the curve arithmetic done
//! by the `p256` crate.
use vstd::prelude::*;
use vstd::utf8::encode_utf8;
use crate::crypto::{
    ecdsa_raw_to_der, ecdsa_signature_der, CryptoError, P256PrivateKey, P256PublicKey, P256Signature,
    P256SigningSuite,
};

verus! {

/// A byte result seen as plain values: the bytes, or the rendered error.
pub open spec fn bytes_view(r: Result<Vec<u8>, String>) -> Result<Seq<u8>, Seq<char>> {
    match r {
        Ok(v) => Ok(v@),
        Err(m) => Err(m@),
    }
}

/// A fixed-width signature result seen as plain values.
pub open spec fn signature_view(r: Result<[u8; 64], String>) -> Result<Seq<u8>, Seq<char>> {
    match r {
        Ok(v) => Ok(v@),
        Err(m) => Err(m@),
    }
}

/// A unit result seen as plain values.
pub open spec fn unit_view(r: Result<(), String>) -> Result<(), Seq<char>> {
    match r {
        Ok(()) => Ok(()),
        Err(m) => Err(m@),
    }
}

/// What `pem_rfc7468::decode` gives for `pem` with a 2048-byte output buffer: the
/// decoded DER bytes, or the rendered error.
pub uninterp spec fn pem_decoded(pem: Seq<u8>) -> Result<Seq<u8>, Seq<char>>;

/// What PKCS#8 parsing of `der` as a P-256 private key gives: the 32-byte secret
/// scalar, or the rendered error.
pub uninterp spec fn pkcs8_p256_secret(der: Seq<u8>) -> Result<Seq<u8>, Seq<char>>;

/// The deterministic (RFC 6979) ECDSA P-256/SHA-256 signature `r‖s` of `message`
/// under the secret scalar `secret`, or the rendered error.
pub uninterp spec fn es256_signature(secret: Seq<u8>, message: Seq<u8>) -> Result<Seq<u8>, Seq<char>>;

/// Whether `spki` parses as a DER SubjectPublicKeyInfo of a P-256 key; the rendered
/// error if not.
pub uninterp spec fn spki_p256_check(spki: Seq<u8>) -> Result<(), Seq<char>>;

/// Whether `signature` (`r‖s`) is a valid ECDSA P-256/SHA-256 signature of `message`
/// under the key in `spki`; the rendered error if not.
pub uninterp spec fn es256_verification(spki: Seq<u8>, signature: Seq<u8>, message: Seq<u8>) -> Result<(), Seq<char>>;

/// `pem_rfc7468::decode` into a 2048-byte buffer, the decoded bytes copied out and the
/// error rendered with `to_string`. Claims: the result is the named decoding of `pem`.
#[verifier::external_body]
fn decode_pem_document(pem: &[u8]) -> (res: Result<Vec<u8>, String>)
    ensures
        bytes_view(res) == pem_decoded(pem@),
{
    let mut buf = [0u8; 2048];
    match pem_rfc7468::decode(pem, &mut buf) {
        Ok((_, der)) => Ok(der.to_vec()),
        Err(e) => Err(e.to_string()),
    }
}

/// `SigningKey::from_pkcs8_der` (p256), the parsed key turned into its secret scalar
/// bytes with `to_bytes` and the error rendered with `to_string`. Claims: the result is
/// the named parse of `der`.
#[verifier::external_body]
fn secret_from_pkcs8_der(der: &[u8]) -> (res: Result<Vec<u8>, String>)
    ensures
        bytes_view(res) == pkcs8_p256_secret(der@),
{
    match <p256::ecdsa::SigningKey as p256::pkcs8::DecodePrivateKey>::from_pkcs8_der(der) {
        Ok(key) => Ok(key.to_bytes().to_vec()),
        Err(e) => Err(e.to_string()),
    }
}

/// `Signer::try_sign` of p256's `SigningKey`, the key rebuilt from its scalar bytes with
/// `SigningKey::from_slice` and the signature turned into its `r‖s` bytes. Claims: the
/// result is the named signature of `message` under `secret`.
#[verifier::external_body]
fn sign_es256(secret: &[u8], message: &[u8]) -> (res: Result<[u8; 64], String>)
    ensures
        signature_view(res) == es256_signature(secret@, message@),
{
    let key = match p256::ecdsa::SigningKey::from_slice(secret) {
        Ok(k) => k,
        Err(e) => return Err(e.to_string()),
    };
    match p256::ecdsa::signature::Signer::<p256::ecdsa::Signature>::try_sign(&key, message) {
        Ok(sig) => Ok(sig.to_bytes().into()),
        Err(e) => Err(e.to_string()),
    }
}

/// `VerifyingKey::from_public_key_der` (p256), the parsed key dropped and the error
/// rendered with `to_string`. Claims: the result is the named check of `spki`.
#[verifier::external_body]
fn check_spki(spki: &[u8]) -> (res: Result<(), String>)
    ensures
        unit_view(res) == spki_p256_check(spki@),
{
    match <p256::ecdsa::VerifyingKey as p256::pkcs8::DecodePublicKey>::from_public_key_der(spki) {
        Ok(_) => Ok(()),
        Err(e) => Err(e.to_string()),
    }
}

/// `Verifier::verify` of p256's `VerifyingKey`, the key parsed from `spki` and the
/// signature from its `r‖s` bytes, errors rendered with `to_string`. Claims: the result
/// is the named verification.
#[verifier::external_body]
fn verify_es256(spki: &[u8], signature: &[u8; 64], message: &[u8]) -> (res: Result<(), String>)
    ensures
        unit_view(res) == es256_verification(spki@, signature@, message@),
{
    let key = match <p256::ecdsa::VerifyingKey as p256::pkcs8::DecodePublicKey>::from_public_key_der(spki) {
        Ok(k) => k,
        Err(e) => return Err(e.to_string()),
    };
    let sig = match p256::ecdsa::Signature::from_slice(signature) {
        Ok(s) => s,
        Err(e) => return Err(e.to_string()),
    };
    match p256::ecdsa::signature::Verifier::verify(&key, message, &sig) {
        Ok(()) => Ok(()),
        Err(e) => Err(e.to_string()),
    }
}

/// The RustCrypto implementation of the P-256 suite.
pub struct RustCrypto;

/// A P-256 private key, held as its secret scalar.
pub struct RustCryptoP256PrivateKey {
    secret: Vec<u8>,
}

impl RustCryptoP256PrivateKey {
    /// The secret scalar bytes.
    pub closed spec fn secret(&self) -> Seq<u8> {
        self.secret@
    }
}

/// A P-256 public key, held as its DER SubjectPublicKeyInfo.
pub struct RustCryptoP256PublicKey {
    spki_der: Vec<u8>,
}

impl RustCryptoP256PublicKey {
    /// The DER SubjectPublicKeyInfo.
    pub closed spec fn spki(&self) -> Seq<u8> {
        self.spki_der@
    }
}

/// What loading the PEM text with bytes `pem` as a private key gives: its secret
/// scalar, or the key error's message.
pub open spec fn private_key_result(pem: Seq<u8>) -> Result<Seq<u8>, Seq<char>> {
    match pem_decoded(pem) {
        Err(m) => Err(m),
        Ok(der) => pkcs8_p256_secret(der),
    }
}

/// What signing `message` with the secret `secret` gives: the raw signature, or the
/// signing error's message.
pub open spec fn signature_result(secret: Seq<u8>, message: Seq<u8>) -> Result<Seq<u8>, Seq<char>> {
    es256_signature(secret, message)
}

impl RustCrypto {
    /// Loads a PKCS#8 PEM private key.
    pub fn load_private_key(pem: &str) -> (res: Result<RustCryptoP256PrivateKey, CryptoError>)
        ensures
            match res {
                Ok(k) => private_key_result(encode_utf8(pem@)) == Ok::<Seq<u8>, Seq<char>>(k.secret()),
                Err(e) => e matches CryptoError::KeyError(m) && private_key_result(encode_utf8(pem@))
                    == Err::<Seq<u8>, Seq<char>>(m@),
            },
    {
        let der = match decode_pem_document(pem.as_bytes()) {
            Ok(d) => d,
            Err(m) => return Err(CryptoError::KeyError(m)),
        };
        match secret_from_pkcs8_der(der.as_slice()) {
            Ok(secret) => Ok(RustCryptoP256PrivateKey { secret }),
            Err(m) => Err(CryptoError::KeyError(m)),
        }
    }

    /// Loads a DER SubjectPublicKeyInfo public key.
    pub fn load_public_key(spki_der: &[u8]) -> (res: Result<RustCryptoP256PublicKey, CryptoError>)
        ensures
            match res {
                Ok(k) => spki_p256_check(spki_der@) == Ok::<(), Seq<char>>(()) && k.spki() == spki_der@,
                Err(e) => e matches CryptoError::KeyError(m) && spki_p256_check(spki_der@) == Err::<
                    (),
                    Seq<char>,
                >(m@),
            },
    {
        match check_spki(spki_der) {
            Ok(()) => {
                let mut v: Vec<u8> = Vec::new();
                let mut i: usize = 0;
                while i < spki_der.len()
                    invariant
                        i <= spki_der@.len(),
                        v@ == spki_der@.subrange(0, i as int),
                    decreases spki_der@.len() - i,
                {
                    v.push(spki_der[i]);
                    assert(spki_der@.subrange(0, i + 1) =~= spki_der@.subrange(0, i as int).push(
                        spki_der@[i as int],
                    ));
                    i += 1;
                }
                assert(v@ =~= spki_der@);
                Ok(RustCryptoP256PublicKey { spki_der: v })
            },
            Err(m) => Err(CryptoError::KeyError(m)),
        }
    }
}

impl P256SigningSuite for RustCrypto {
    type PrivateKey = RustCryptoP256PrivateKey;

    type PublicKey = RustCryptoP256PublicKey;

    fn private_key(&self, pem: &str) -> (res: Result<RustCryptoP256PrivateKey, CryptoError>)
        ensures
            match res {
                Ok(k) => private_key_result(encode_utf8(pem@)) == Ok::<Seq<u8>, Seq<char>>(k.secret()),
                Err(e) => e matches CryptoError::KeyError(m) && private_key_result(encode_utf8(pem@))
                    == Err::<Seq<u8>, Seq<char>>(m@),
            },
    {
        RustCrypto::load_private_key(pem)
    }

    fn public_key(&self, spki_der: &[u8]) -> (res: Result<RustCryptoP256PublicKey, CryptoError>)
        ensures
            match res {
                Ok(k) => spki_p256_check(spki_der@) == Ok::<(), Seq<char>>(()) && k.spki() == spki_der@,
                Err(e) => e matches CryptoError::KeyError(m) && spki_p256_check(spki_der@) == Err::<
                    (),
                    Seq<char>,
                >(m@),
            },
    {
        RustCrypto::load_public_key(spki_der)
    }
}

impl RustCryptoP256PrivateKey {
    /// Signs `message` (hashed with SHA-256 inside), returning `r‖s` and its DER form.
    pub fn sign(&self, message: &[u8]) -> (res: Result<P256Signature, CryptoError>)
        ensures
            match res {
                Ok((raw, der)) => signature_result(self.secret(), message@) == Ok::<Seq<u8>, Seq<char>>(raw@)
                    && der@ == ecdsa_signature_der(raw@),
                Err(e) => e matches CryptoError::SigningError(m) && signature_result(self.secret(), message@)
                    == Err::<Seq<u8>, Seq<char>>(m@),
            },
    {
        match sign_es256(self.secret.as_slice(), message) {
            Ok(raw) => {
                let der = ecdsa_raw_to_der(&raw);
                match der {
                    Ok(d) => Ok((raw, d)),
                    Err(e) => Err(e),
                }
            },
            Err(m) => Err(CryptoError::SigningError(m)),
        }
    }
}

impl P256PrivateKey for RustCryptoP256PrivateKey {
    fn signature(&self, message: &[u8]) -> (res: Result<P256Signature, CryptoError>)
        ensures
            match res {
                Ok((raw, der)) => signature_result(self.secret(), message@) == Ok::<Seq<u8>, Seq<char>>(raw@)
                    && der@ == ecdsa_signature_der(raw@),
                Err(e) => e matches CryptoError::SigningError(m) && signature_result(self.secret(), message@)
                    == Err::<Seq<u8>, Seq<char>>(m@),
            },
    {
        self.sign(message)
    }
}

impl RustCryptoP256PublicKey {
    /// Checks a fixed-width signature over `message`.
    pub fn verify(&self, signature: &[u8; 64], message: &[u8]) -> (res: Result<(), CryptoError>)
        ensures
            match res {
                Ok(()) => es256_verification(self.spki(), signature@, message@) == Ok::<(), Seq<char>>(()),
                Err(e) => e matches CryptoError::VerificationError(m) && es256_verification(
                    self.spki(),
                    signature@,
                    message@,
                ) == Err::<(), Seq<char>>(m@),
            },
    {
        match verify_es256(self.spki_der.as_slice(), signature, message) {
            Ok(()) => Ok(()),
            Err(m) => Err(CryptoError::VerificationError(m)),
        }
    }
}

impl P256PublicKey for RustCryptoP256PublicKey {
    fn is_valid_signature(&self, signature: &[u8; 64], message: &[u8]) -> (res: Result<(), CryptoError>)
        ensures
            match res {
                Ok(()) => es256_verification(self.spki(), signature@, message@) == Ok::<(), Seq<char>>(()),
                Err(e) => e matches CryptoError::VerificationError(m) && es256_verification(
                    self.spki(),
                    signature@,
                    message@,
                ) == Err::<(), Seq<char>>(m@),
            },
    {
        self.verify(signature, message)
    }
}

} // verus!
