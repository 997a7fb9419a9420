//! Signed (ES256 compact JWS) requests for the App Store: promotional offers,
//! introductory-offer eligibility and Advanced Commerce in-app requests.
use vstd::prelude::*;
use vstd::utf8::encode_utf8;
use crate::crypto::jws::{b64url_encode, base64url_decoded, base64url_encoding, dot_segments, encode_compact, trim_padding};
use crate::crypto::rust_crypto::{es256_signature, private_key_result, RustCrypto, RustCryptoP256PrivateKey};
use crate::crypto::CryptoError;
use crate::json_text::{object_string, object_text, members_view, JsonValue, JsonValueView};

verus! {

/// Failures of signature creation.
#[derive(Debug, PartialEq)]
pub enum JWSSignatureCreatorError {
    InvalidPrivateKey,
    SigningError(String),
    SerializationError(String),
}

impl JWSSignatureCreatorError {
    /// The rendered error.
    pub fn to_string(&self) -> (s: String)
        ensures
            s@ == match self {
                JWSSignatureCreatorError::InvalidPrivateKey => "InvalidPrivateKey"@,
                JWSSignatureCreatorError::SigningError(m) => "SigningError: ["@ + m@ + "]"@,
                JWSSignatureCreatorError::SerializationError(m) => "SerializationError: ["@ + m@ + "]"@,
            },
    {
        match self {
            JWSSignatureCreatorError::InvalidPrivateKey => String::from_str("InvalidPrivateKey"),
            JWSSignatureCreatorError::SigningError(m) => {
                let mut s = String::from_str("SigningError: [");
                s.append(m.as_str());
                s.append("]");
                s
            },
            JWSSignatureCreatorError::SerializationError(m) => {
                let mut s = String::from_str("SerializationError: [");
                s.append(m.as_str());
                s.append("]");
                s
            },
        }
    }
}

/// A signature-creation error as plain values.
pub enum CreatorErrorView {
    InvalidPrivateKey,
    SigningError(Seq<char>),
    SerializationError(Seq<char>),
}

impl View for JWSSignatureCreatorError {
    type V = CreatorErrorView;

    open spec fn view(&self) -> CreatorErrorView {
        match self {
            JWSSignatureCreatorError::InvalidPrivateKey => CreatorErrorView::InvalidPrivateKey,
            JWSSignatureCreatorError::SigningError(m) => CreatorErrorView::SigningError(m@),
            JWSSignatureCreatorError::SerializationError(m) => CreatorErrorView::SerializationError(m@),
        }
    }
}

/// A signing result as plain values.
pub open spec fn token_view(r: Result<String, JWSSignatureCreatorError>) -> Result<Seq<char>, CreatorErrorView> {
    match r {
        Ok(t) => Ok(t@),
        Err(e) => Err(e@),
    }
}

/// The signature-creation error a crypto error stands for.
pub open spec fn creator_error_of(e: CryptoError) -> JWSSignatureCreatorError {
    match e {
        CryptoError::KeyError(_) => JWSSignatureCreatorError::InvalidPrivateKey,
        CryptoError::SigningError(m) => JWSSignatureCreatorError::SigningError(m),
        CryptoError::VerificationError(m) => JWSSignatureCreatorError::SigningError(m),
    }
}

impl From<CryptoError> for JWSSignatureCreatorError {
    fn from(e: CryptoError) -> (r: Self) {
        match e {
            CryptoError::KeyError(_) => JWSSignatureCreatorError::InvalidPrivateKey,
            CryptoError::SigningError(m) => JWSSignatureCreatorError::SigningError(m),
            CryptoError::VerificationError(m) => JWSSignatureCreatorError::SigningError(m),
        }
    }
}

impl vstd::std_specs::convert::FromSpecImpl<CryptoError> for JWSSignatureCreatorError {
    open spec fn obeys_from_spec() -> bool {
        true
    }

    open spec fn from_spec(e: CryptoError) -> JWSSignatureCreatorError {
        creator_error_of(e)
    }
}

/// A fresh random (version 4) UUID in its hyphenated form, from `uuid::Uuid::new_v4`
/// and `to_string`. Claims only that the hyphenated form is 36 characters long; the
/// value is random.
#[verifier::external_body]
fn new_nonce() -> (nonce: String)
    ensures
        nonce@.len() == 36,
{
    uuid::Uuid::new_v4().to_string()
}

/// `chrono::Utc::now().timestamp()`: the current time in seconds since the Unix epoch.
/// Claims nothing of the value, which is the machine's clock.
#[verifier::external_body]
pub(crate) fn now_timestamp() -> (t: i64) {
    chrono::Utc::now().timestamp()
}

/// The standard (padded) base64 text `base64` writes for `data`.
pub uninterp spec fn base64_standard_encoding(data: Seq<u8>) -> Seq<char>;

/// `base64::engine::general_purpose::STANDARD.encode`. Claims: the result is the named
/// encoding of `data`.
#[verifier::external_body]
fn base64_standard_encode(data: &[u8]) -> (res: String)
    ensures
        res@ == base64_standard_encoding(data@),
{
    base64::Engine::encode(&base64::engine::general_purpose::STANDARD, data)
}

/// The JOSE header members: `alg`, `kid`, `typ`.
pub open spec fn header_members(key_id: Seq<char>) -> Seq<(Seq<char>, JsonValueView)> {
    seq![
        ("alg"@, JsonValueView::Str("ES256"@)),
        ("kid"@, JsonValueView::Str(key_id)),
        ("typ"@, JsonValueView::Str("JWT"@)),
    ]
}

/// The compact ES256 JWS of the given header and payload texts under `secret`, or the
/// signing error's message.
pub open spec fn es256_compact(header_json: Seq<char>, payload_json: Seq<char>, secret: Seq<u8>) -> Result<
    Seq<char>,
    Seq<char>,
> {
    let h = base64url_encoding(encode_utf8(header_json));
    let p = base64url_encoding(encode_utf8(payload_json));
    match es256_signature(secret, encode_utf8(h + seq!['.'] + p)) {
        Ok(sig) => Ok(h + seq!['.'] + p + seq!['.'] + base64url_encoding(sig)),
        Err(m) => Err(m),
    }
}

/// What signing the payload members gives: the header and payload are written as JSON
/// (a failure there is a serialization error), then signed (a failure there is a signing
/// error).
pub open spec fn signed_token(
    key_id: Seq<char>,
    secret: Seq<u8>,
    payload: Seq<(Seq<char>, JsonValueView)>,
) -> Result<Seq<char>, CreatorErrorView> {
    match object_text(header_members(key_id)) {
        Err(m) => Err(CreatorErrorView::SerializationError(m)),
        Ok(h) => match object_text(payload) {
            Err(m) => Err(CreatorErrorView::SerializationError(m)),
            Ok(p) => match es256_compact(h, p, secret) {
                Ok(t) => Ok(t),
                Err(m) => Err(CreatorErrorView::SigningError(m)),
            },
        },
    }
}

/// Whether `token` is three segments that decode to the JSON texts of the header for
/// `key_id` and of `payload`, and to a 64-byte signature.
pub open spec fn token_carries(
    token: Seq<char>,
    key_id: Seq<char>,
    payload: Seq<(Seq<char>, JsonValueView)>,
) -> bool {
    match (object_text(header_members(key_id)), object_text(payload)) {
        (Ok(h), Ok(p)) => {
            &&& dot_segments(token).len() == 3
            &&& base64url_decoded(trim_padding(dot_segments(token)[0])) == Ok::<Seq<u8>, Seq<char>>(encode_utf8(h))
            &&& base64url_decoded(trim_padding(dot_segments(token)[1])) == Ok::<Seq<u8>, Seq<char>>(encode_utf8(p))
            &&& exists|sig: Seq<u8>|
                sig.len() == 64 && base64url_decoded(trim_padding(dot_segments(token)[2])) == Ok::<
                    Seq<u8>,
                    Seq<char>,
                >(sig)
        },
        _ => false,
    }
}

/// The members every payload starts with.
pub open spec fn base_members(
    nonce: Seq<char>,
    issuer_id: Seq<char>,
    bundle_id: Seq<char>,
    audience: Seq<char>,
    iat: i64,
) -> Seq<(Seq<char>, JsonValueView)> {
    seq![
        ("nonce"@, JsonValueView::Str(nonce)),
        ("iss"@, JsonValueView::Str(issuer_id)),
        ("bid"@, JsonValueView::Str(bundle_id)),
        ("aud"@, JsonValueView::Str(audience)),
        ("iat"@, JsonValueView::Int(iat)),
    ]
}

/// The signer shared by the request kinds: who signs, with which key, for which audience.
struct JWSSignatureCreator {
    audience: String,
    signing_key: RustCryptoP256PrivateKey,
    key_id: String,
    issuer_id: String,
    bundle_id: String,
}

/// A copy of `s`.
fn copy_string(s: &String) -> (c: String)
    ensures
        c@ == s@,
{
    String::from_str(s.as_str())
}

/// `(key, value)` with a literal key.
fn member(key: &str, value: JsonValue) -> (m: (String, JsonValue))
    ensures
        m.0@ == key@,
        m.1 == value,
{
    (String::from_str(key), value)
}

impl JWSSignatureCreator {
    spec fn members_start(&self, nonce: Seq<char>, iat: i64) -> Seq<(Seq<char>, JsonValueView)> {
        base_members(nonce, self.issuer_id@, self.bundle_id@, self.audience@, iat)
    }

    fn new(audience: String, signing_key: &str, key_id: String, issuer_id: String, bundle_id: String) -> (res:
        Result<Self, JWSSignatureCreatorError>)
        ensures
            match res {
                Ok(c) => private_key_result(encode_utf8(signing_key@)) == Ok::<Seq<u8>, Seq<char>>(
                    c.signing_key.secret(),
                ) && c.audience == audience && c.key_id == key_id && c.issuer_id == issuer_id && c.bundle_id
                    == bundle_id,
                Err(e) => e == JWSSignatureCreatorError::InvalidPrivateKey && private_key_result(
                    encode_utf8(signing_key@),
                ) is Err,
            },
    {
        let provider = RustCrypto;
        match crate::crypto::P256SigningSuite::private_key(&provider, signing_key) {
            Ok(key) => Ok(JWSSignatureCreator { audience, signing_key: key, key_id, issuer_id, bundle_id }),
            Err(_) => Err(JWSSignatureCreatorError::InvalidPrivateKey),
        }
    }

    /// The members every payload starts with, for this signer.
    fn base_payload(&self, nonce: String, iat: i64) -> (m: Vec<(String, JsonValue)>)
        ensures
            members_view(m@) == self.members_start(nonce@, iat),
    {
        let mut m: Vec<(String, JsonValue)> = Vec::new();
        m.push(member("nonce", JsonValue::Str(nonce)));
        m.push(member("iss", JsonValue::Str(copy_string(&self.issuer_id))));
        m.push(member("bid", JsonValue::Str(copy_string(&self.bundle_id))));
        m.push(member("aud", JsonValue::Str(copy_string(&self.audience))));
        m.push(member("iat", JsonValue::Int(iat)));
        proof {
            reveal_strlit("nonce");
            reveal_strlit("iss");
            reveal_strlit("bid");
            reveal_strlit("aud");
            reveal_strlit("iat");
            assert(members_view(m@) =~= self.members_start(nonce@, iat));
        }
        m
    }

    /// Signs the payload with these members.
    fn create_signature(&self, payload: &Vec<(String, JsonValue)>) -> (res: Result<String, JWSSignatureCreatorError>)
        ensures
            token_view(res) == signed_token(self.key_id@, self.signing_key.secret(), members_view(payload@)),
            res matches Ok(t) ==> token_carries(t@, self.key_id@, members_view(payload@)),
            res matches Err(e) ==> e is SigningError,
    {
        sign_payload(self.key_id.as_str(), &self.signing_key, payload)
    }
}

/// Signs the payload members as an ES256 compact JWS whose header names `key_id`.
pub(crate) fn sign_payload(
    key_id: &str,
    signing_key: &RustCryptoP256PrivateKey,
    payload: &Vec<(String, JsonValue)>,
) -> (res: Result<String, JWSSignatureCreatorError>)
    ensures
        token_view(res) == signed_token(key_id@, signing_key.secret(), members_view(payload@)),
        res matches Ok(t) ==> token_carries(t@, key_id@, members_view(payload@)),
        res matches Err(e) ==> e is SigningError,
{
    let mut header: Vec<(String, JsonValue)> = Vec::new();
    header.push(member("alg", JsonValue::Str(String::from_str("ES256"))));
    header.push(member("kid", JsonValue::Str(String::from_str(key_id))));
    header.push(member("typ", JsonValue::Str(String::from_str("JWT"))));
    proof {
        reveal_strlit("alg");
        reveal_strlit("ES256");
        reveal_strlit("kid");
        reveal_strlit("typ");
        reveal_strlit("JWT");
        assert(members_view(header@) =~= header_members(key_id@));
    }
    let header_json = match object_string(&header) {
        Ok(h) => h,
        Err(m) => return Err(JWSSignatureCreatorError::SerializationError(m)),
    };
    let payload_json = match object_string(payload) {
        Ok(p) => p,
        Err(m) => return Err(JWSSignatureCreatorError::SerializationError(m)),
    };
    let encoded_header = b64url_encode(header_json.as_str().as_bytes());
    let encoded_payload = b64url_encode(payload_json.as_str().as_bytes());
    let mut signing_input = copy_string(&encoded_header);
    proof {
        reveal_strlit(".");
    }
    signing_input.append(".");
    signing_input.append(encoded_payload.as_str());
    let signed = crate::crypto::P256PrivateKey::signature(signing_key, signing_input.as_str().as_bytes());
    match signed {
        Ok((raw, _)) => {
            let raw_bytes = raw.as_slice();
            let token = encode_compact(encoded_header.as_str(), encoded_payload.as_str(), raw_bytes);
            proof {
                assert(raw_bytes@ == raw@);
                assert(signing_input@ == encoded_header@ + seq!['.'] + encoded_payload@);
                assert(object_text(header_members(key_id@)) == Ok::<Seq<char>, Seq<char>>(header_json@));
                assert(object_text(members_view(payload@)) == Ok::<Seq<char>, Seq<char>>(payload_json@));
                assert(dot_segments(token@)[2] == base64url_encoding(raw@));
            }
            Ok(token)
        },
        Err(e) => {
            let r = JWSSignatureCreatorError::from(e);
            proof {
                assert(signing_input@ == encoded_header@ + seq!['.'] + encoded_payload@);
                assert(object_text(header_members(key_id@)) == Ok::<Seq<char>, Seq<char>>(header_json@));
                assert(object_text(members_view(payload@)) == Ok::<Seq<char>, Seq<char>>(payload_json@));
            }
            Err(r)
        },
    }
}

/// The members of a promotional offer V2 payload; `transactionId` only when given.
pub open spec fn promotional_offer_v2_members(
    base: Seq<(Seq<char>, JsonValueView)>,
    product_id: Seq<char>,
    offer_identifier: Seq<char>,
    transaction_id: Option<Seq<char>>,
) -> Seq<(Seq<char>, JsonValueView)> {
    let m = base + seq![
        ("productId"@, JsonValueView::Str(product_id)),
        ("offerIdentifier"@, JsonValueView::Str(offer_identifier)),
    ];
    match transaction_id {
        Some(t) => m.push(("transactionId"@, JsonValueView::Str(t))),
        None => m,
    }
}

/// The members of an introductory offer eligibility payload.
pub open spec fn introductory_offer_eligibility_members(
    base: Seq<(Seq<char>, JsonValueView)>,
    product_id: Seq<char>,
    allow_introductory_offer: bool,
    transaction_id: Seq<char>,
) -> Seq<(Seq<char>, JsonValueView)> {
    base + seq![
        ("productId"@, JsonValueView::Str(product_id)),
        ("allowIntroductoryOffer"@, JsonValueView::Bool(allow_introductory_offer)),
        ("transactionId"@, JsonValueView::Str(transaction_id)),
    ]
}

/// The members of an Advanced Commerce in-app payload: the request's JSON bytes in
/// standard base64.
pub open spec fn advanced_commerce_in_app_members(
    base: Seq<(Seq<char>, JsonValueView)>,
    request_json: Seq<u8>,
) -> Seq<(Seq<char>, JsonValueView)> {
    base.push(("request"@, JsonValueView::Str(base64_standard_encoding(request_json))))
}

/// The option's text, if any.
pub open spec fn option_view(o: Option<String>) -> Option<Seq<char>> {
    match o {
        Some(s) => Some(s@),
        None => None,
    }
}

/// Creator for Promotional Offer V2 signatures.
pub struct PromotionalOfferV2SignatureCreator {
    base: JWSSignatureCreator,
}

impl PromotionalOfferV2SignatureCreator {
    /// The key identifier put in the header.
    pub closed spec fn key_id(&self) -> Seq<char> {
        self.base.key_id@
    }

    /// The issuer identifier.
    pub closed spec fn issuer_id(&self) -> Seq<char> {
        self.base.issuer_id@
    }

    /// The bundle identifier.
    pub closed spec fn bundle_id(&self) -> Seq<char> {
        self.base.bundle_id@
    }

    /// The audience claim.
    pub closed spec fn audience(&self) -> Seq<char> {
        self.base.audience@
    }

    /// The secret scalar of the signing key.
    pub closed spec fn secret(&self) -> Seq<u8> {
        self.base.signing_key.secret()
    }

    /// The payload members for this nonce and issue time.
    pub open spec fn payload_members(
        &self,
        product_id: Seq<char>,
        offer_identifier: Seq<char>,
        transaction_id: Option<Seq<char>>,
        nonce: Seq<char>,
        iat: i64,
    ) -> Seq<(Seq<char>, JsonValueView)> {
        promotional_offer_v2_members(
            base_members(nonce, self.issuer_id(), self.bundle_id(), self.audience(), iat),
            product_id,
            offer_identifier,
            transaction_id,
        )
    }

    /// What signing the payload for this nonce and issue time gives.
    pub open spec fn token_for(
        &self,
        product_id: Seq<char>,
        offer_identifier: Seq<char>,
        transaction_id: Option<Seq<char>>,
        nonce: Seq<char>,
        iat: i64,
    ) -> Result<Seq<char>, CreatorErrorView> {
        signed_token(
            self.key_id(),
            self.secret(),
            self.payload_members(product_id, offer_identifier, transaction_id, nonce, iat),
        )
    }

    /// Creates a creator from the PEM private key downloaded from App Store Connect, the
    /// key ID, the issuer ID and the app's bundle ID.
    pub fn new(signing_key: &str, key_id: String, issuer_id: String, bundle_id: String) -> (res: Result<
        Self,
        JWSSignatureCreatorError,
    >)
        ensures
            match res {
                Ok(c) => private_key_result(encode_utf8(signing_key@)) == Ok::<Seq<u8>, Seq<char>>(c.secret())
                    && c.audience() == "promotional-offer"@ && c.key_id() == key_id@ && c.issuer_id()
                    == issuer_id@ && c.bundle_id() == bundle_id@,
                Err(e) => e == JWSSignatureCreatorError::InvalidPrivateKey && private_key_result(
                    encode_utf8(signing_key@),
                ) is Err,
            },
    {
        let base = JWSSignatureCreator::new(
            String::from_str("promotional-offer"),
            signing_key,
            key_id,
            issuer_id,
            bundle_id,
        )?;
        Ok(PromotionalOfferV2SignatureCreator { base })
    }

    /// Creates a promotional offer V2 signature with a fresh nonce, issued now.
    pub fn create_signature(&self, product_id: &str, offer_identifier: &str, transaction_id: Option<String>) -> (res:
        Result<String, JWSSignatureCreatorError>)
        ensures
            exists|nonce: Seq<char>, iat: i64|
                nonce.len() == 36 && token_view(res) == #[trigger] self.token_for(
                    product_id@,
                    offer_identifier@,
                    option_view(transaction_id),
                    nonce,
                    iat,
                ),
    {
        let nonce = new_nonce();
        let iat = now_timestamp();
        let ghost n = nonce@;
        let res = self.create_signature_at(product_id, offer_identifier, transaction_id, nonce, iat);
        assert(token_view(res) == self.token_for(product_id@, offer_identifier@, option_view(transaction_id), n, iat));
        res
    }

    /// Creates a promotional offer V2 signature with the given nonce and issue time.
    pub fn create_signature_at(
        &self,
        product_id: &str,
        offer_identifier: &str,
        transaction_id: Option<String>,
        nonce: String,
        iat: i64,
    ) -> (res: Result<String, JWSSignatureCreatorError>)
        ensures
            token_view(res) == self.token_for(
                product_id@,
                offer_identifier@,
                option_view(transaction_id),
                nonce@,
                iat,
            ),
            res matches Ok(t) ==> token_carries(
                t@,
                self.key_id(),
                self.payload_members(product_id@, offer_identifier@, option_view(transaction_id), nonce@, iat),
            ),
            res matches Err(e) ==> e is SigningError,
    {
        let ghost n = nonce@;
        let mut payload = self.base.base_payload(nonce, iat);
        payload.push(member("productId", JsonValue::Str(String::from_str(product_id))));
        payload.push(member("offerIdentifier", JsonValue::Str(String::from_str(offer_identifier))));
        let ghost txn = option_view(transaction_id);
        match transaction_id {
            Some(t) => {
                payload.push(member("transactionId", JsonValue::Str(t)));
            },
            None => {},
        }
        proof {
            reveal_strlit("productId");
            reveal_strlit("offerIdentifier");
            reveal_strlit("transactionId");
            assert(members_view(payload@) =~= promotional_offer_v2_members(
                base_members(n, self.issuer_id(), self.bundle_id(), self.audience(), iat),
                product_id@,
                offer_identifier@,
                txn,
            ));
        }
        self.base.create_signature(&payload)
    }
}

/// Creator for Introductory Offer Eligibility signatures.
pub struct IntroductoryOfferEligibilitySignatureCreator {
    base: JWSSignatureCreator,
}

impl IntroductoryOfferEligibilitySignatureCreator {
    /// The key identifier put in the header.
    pub closed spec fn key_id(&self) -> Seq<char> {
        self.base.key_id@
    }

    /// The issuer identifier.
    pub closed spec fn issuer_id(&self) -> Seq<char> {
        self.base.issuer_id@
    }

    /// The bundle identifier.
    pub closed spec fn bundle_id(&self) -> Seq<char> {
        self.base.bundle_id@
    }

    /// The audience claim.
    pub closed spec fn audience(&self) -> Seq<char> {
        self.base.audience@
    }

    /// The secret scalar of the signing key.
    pub closed spec fn secret(&self) -> Seq<u8> {
        self.base.signing_key.secret()
    }

    /// The payload members for this nonce and issue time.
    pub open spec fn payload_members(
        &self,
        product_id: Seq<char>,
        allow_introductory_offer: bool,
        transaction_id: Seq<char>,
        nonce: Seq<char>,
        iat: i64,
    ) -> Seq<(Seq<char>, JsonValueView)> {
        introductory_offer_eligibility_members(
            base_members(nonce, self.issuer_id(), self.bundle_id(), self.audience(), iat),
            product_id,
            allow_introductory_offer,
            transaction_id,
        )
    }

    /// What signing the payload for this nonce and issue time gives.
    pub open spec fn token_for(
        &self,
        product_id: Seq<char>,
        allow_introductory_offer: bool,
        transaction_id: Seq<char>,
        nonce: Seq<char>,
        iat: i64,
    ) -> Result<Seq<char>, CreatorErrorView> {
        signed_token(
            self.key_id(),
            self.secret(),
            self.payload_members(product_id, allow_introductory_offer, transaction_id, nonce, iat),
        )
    }

    /// Creates a creator from the PEM private key downloaded from App Store Connect, the
    /// key ID, the issuer ID and the app's bundle ID.
    pub fn new(signing_key: &str, key_id: String, issuer_id: String, bundle_id: String) -> (res: Result<
        Self,
        JWSSignatureCreatorError,
    >)
        ensures
            match res {
                Ok(c) => private_key_result(encode_utf8(signing_key@)) == Ok::<Seq<u8>, Seq<char>>(c.secret())
                    && c.audience() == "introductory-offer-eligibility"@ && c.key_id() == key_id@
                    && c.issuer_id() == issuer_id@ && c.bundle_id() == bundle_id@,
                Err(e) => e == JWSSignatureCreatorError::InvalidPrivateKey && private_key_result(
                    encode_utf8(signing_key@),
                ) is Err,
            },
    {
        let base = JWSSignatureCreator::new(
            String::from_str("introductory-offer-eligibility"),
            signing_key,
            key_id,
            issuer_id,
            bundle_id,
        )?;
        Ok(IntroductoryOfferEligibilitySignatureCreator { base })
    }

    /// Creates an introductory offer eligibility signature with a fresh nonce, issued now.
    pub fn create_signature(&self, product_id: &str, allow_introductory_offer: bool, transaction_id: &str) -> (res:
        Result<String, JWSSignatureCreatorError>)
        ensures
            exists|nonce: Seq<char>, iat: i64|
                nonce.len() == 36 && token_view(res) == #[trigger] self.token_for(
                    product_id@,
                    allow_introductory_offer,
                    transaction_id@,
                    nonce,
                    iat,
                ),
    {
        let nonce = new_nonce();
        let iat = now_timestamp();
        let ghost n = nonce@;
        let res = self.create_signature_at(product_id, allow_introductory_offer, transaction_id, nonce, iat);
        assert(token_view(res) == self.token_for(product_id@, allow_introductory_offer, transaction_id@, n, iat));
        res
    }

    /// Creates an introductory offer eligibility signature with the given nonce and
    /// issue time.
    pub fn create_signature_at(
        &self,
        product_id: &str,
        allow_introductory_offer: bool,
        transaction_id: &str,
        nonce: String,
        iat: i64,
    ) -> (res: Result<String, JWSSignatureCreatorError>)
        ensures
            token_view(res) == self.token_for(product_id@, allow_introductory_offer, transaction_id@, nonce@, iat),
            res matches Ok(t) ==> token_carries(
                t@,
                self.key_id(),
                self.payload_members(product_id@, allow_introductory_offer, transaction_id@, nonce@, iat),
            ),
            res matches Err(e) ==> e is SigningError,
    {
        let ghost n = nonce@;
        let mut payload = self.base.base_payload(nonce, iat);
        payload.push(member("productId", JsonValue::Str(String::from_str(product_id))));
        payload.push(member("allowIntroductoryOffer", JsonValue::Bool(allow_introductory_offer)));
        payload.push(member("transactionId", JsonValue::Str(String::from_str(transaction_id))));
        proof {
            reveal_strlit("productId");
            reveal_strlit("allowIntroductoryOffer");
            reveal_strlit("transactionId");
            assert(members_view(payload@) =~= introductory_offer_eligibility_members(
                base_members(n, self.issuer_id(), self.bundle_id(), self.audience(), iat),
                product_id@,
                allow_introductory_offer,
                transaction_id@,
            ));
        }
        self.base.create_signature(&payload)
    }
}

/// Creator for Advanced Commerce in-app signed requests.
pub struct AdvancedCommerceInAppSignatureCreator {
    base: JWSSignatureCreator,
}

impl AdvancedCommerceInAppSignatureCreator {
    /// The key identifier put in the header.
    pub closed spec fn key_id(&self) -> Seq<char> {
        self.base.key_id@
    }

    /// The issuer identifier.
    pub closed spec fn issuer_id(&self) -> Seq<char> {
        self.base.issuer_id@
    }

    /// The bundle identifier.
    pub closed spec fn bundle_id(&self) -> Seq<char> {
        self.base.bundle_id@
    }

    /// The audience claim.
    pub closed spec fn audience(&self) -> Seq<char> {
        self.base.audience@
    }

    /// The secret scalar of the signing key.
    pub closed spec fn secret(&self) -> Seq<u8> {
        self.base.signing_key.secret()
    }

    /// The payload members for this request, nonce and issue time.
    pub open spec fn payload_members(&self, request_json: Seq<u8>, nonce: Seq<char>, iat: i64) -> Seq<
        (Seq<char>, JsonValueView),
    > {
        advanced_commerce_in_app_members(
            base_members(nonce, self.issuer_id(), self.bundle_id(), self.audience(), iat),
            request_json,
        )
    }

    /// What signing the request for this nonce and issue time gives.
    pub open spec fn token_for(&self, request_json: Seq<u8>, nonce: Seq<char>, iat: i64) -> Result<
        Seq<char>,
        CreatorErrorView,
    > {
        signed_token(self.key_id(), self.secret(), self.payload_members(request_json, nonce, iat))
    }

    /// Creates a creator from the PEM private key downloaded from App Store Connect, the
    /// key ID, the issuer ID and the app's bundle ID.
    pub fn new(signing_key: &str, key_id: String, issuer_id: String, bundle_id: String) -> (res: Result<
        Self,
        JWSSignatureCreatorError,
    >)
        ensures
            match res {
                Ok(c) => private_key_result(encode_utf8(signing_key@)) == Ok::<Seq<u8>, Seq<char>>(c.secret())
                    && c.audience() == "advanced-commerce-api"@ && c.key_id() == key_id@ && c.issuer_id()
                    == issuer_id@ && c.bundle_id() == bundle_id@,
                Err(e) => e == JWSSignatureCreatorError::InvalidPrivateKey && private_key_result(
                    encode_utf8(signing_key@),
                ) is Err,
            },
    {
        let base = JWSSignatureCreator::new(
            String::from_str("advanced-commerce-api"),
            signing_key,
            key_id,
            issuer_id,
            bundle_id,
        )?;
        Ok(AdvancedCommerceInAppSignatureCreator { base })
    }

    /// Creates an Advanced Commerce in-app signed request from the request's JSON bytes,
    /// with a fresh nonce, issued now.
    pub fn create_signature(&self, request_json: &[u8]) -> (res: Result<String, JWSSignatureCreatorError>)
        ensures
            exists|nonce: Seq<char>, iat: i64|
                nonce.len() == 36 && token_view(res) == #[trigger] self.token_for(request_json@, nonce, iat),
    {
        let nonce = new_nonce();
        let iat = now_timestamp();
        let ghost n = nonce@;
        let res = self.create_signature_at(request_json, nonce, iat);
        assert(token_view(res) == self.token_for(request_json@, n, iat));
        res
    }

    /// Creates an Advanced Commerce in-app signed request with the given nonce and issue
    /// time.
    pub fn create_signature_at(&self, request_json: &[u8], nonce: String, iat: i64) -> (res: Result<
        String,
        JWSSignatureCreatorError,
    >)
        ensures
            token_view(res) == self.token_for(request_json@, nonce@, iat),
            res matches Ok(t) ==> token_carries(t@, self.key_id(), self.payload_members(request_json@, nonce@, iat)),
            res matches Err(e) ==> e is SigningError,
    {
        let ghost n = nonce@;
        let encoded = base64_standard_encode(request_json);
        let mut payload = self.base.base_payload(nonce, iat);
        payload.push(member("request", JsonValue::Str(encoded)));
        proof {
            reveal_strlit("request");
            assert(members_view(payload@) =~= advanced_commerce_in_app_members(
                base_members(n, self.issuer_id(), self.bundle_id(), self.audience(), iat),
                request_json@,
            ));
        }
        self.base.create_signature(&payload)
    }
}


/// A promotional offer V2 payload made at issue time `iat` names that time as its `iat`
/// member, and two payloads made from the same inputs at different issue times differ
/// in that member alone.
pub proof fn lemma_promotional_offer_payload_issue_time(
    creator: PromotionalOfferV2SignatureCreator,
    product_id: Seq<char>,
    offer_identifier: Seq<char>,
    transaction_id: Option<Seq<char>>,
    nonce: Seq<char>,
    iat: i64,
    other_iat: i64,
)
    ensures
        ({
            let p = creator.payload_members(product_id, offer_identifier, transaction_id, nonce, iat);
            let q = creator.payload_members(product_id, offer_identifier, transaction_id, nonce, other_iat);
            &&& p[4] == ("iat"@, JsonValueView::Int(iat))
            &&& q[4] == ("iat"@, JsonValueView::Int(other_iat))
            &&& p.len() == q.len()
            &&& forall|i: int| 0 <= i < p.len() && i != 4 ==> p[i] == q[i]
        }),
{
}

/// An introductory offer eligibility payload made at issue time `iat` names that time
/// as its `iat` member, and two payloads made from the same inputs at different issue
/// times differ in that member alone.
pub proof fn lemma_introductory_offer_payload_issue_time(
    creator: IntroductoryOfferEligibilitySignatureCreator,
    product_id: Seq<char>,
    allow_introductory_offer: bool,
    transaction_id: Seq<char>,
    nonce: Seq<char>,
    iat: i64,
    other_iat: i64,
)
    ensures
        ({
            let p = creator.payload_members(product_id, allow_introductory_offer, transaction_id, nonce, iat);
            let q = creator.payload_members(product_id, allow_introductory_offer, transaction_id, nonce, other_iat);
            &&& p[4] == ("iat"@, JsonValueView::Int(iat))
            &&& q[4] == ("iat"@, JsonValueView::Int(other_iat))
            &&& p.len() == q.len()
            &&& forall|i: int| 0 <= i < p.len() && i != 4 ==> p[i] == q[i]
        }),
{
}

} // verus!
