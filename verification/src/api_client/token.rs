//! The bearer token that authenticates requests to the App Store Server API.
use vstd::prelude::*;
use vstd::utf8::{decode_utf8, encode_utf8, valid_utf8};
use crate::api_client::error::ApiClientError;
use crate::asn1::asn1_basics::utf8_to_string;
use crate::crypto::rust_crypto::{private_key_result, RustCrypto};
use crate::crypto::P256SigningSuite;
use crate::json_text::{members_view, JsonValue, JsonValueView};
use crate::jws_signature_creator::{now_timestamp, sign_payload, signed_token, token_carries};

verus! {

/// How long a token stays valid, in seconds.
pub const TOKEN_LIFETIME: i64 = 300;

/// The audience every API token names.
pub open spec fn token_audience() -> Seq<char> {
    "appstoreconnect-v1"@
}

/// The claims of a token issued at `now`: bundle, issuer, audience, issue and expiry times.
pub open spec fn token_claims(issuer_id: Seq<char>, bundle_id: Seq<char>, now: i64) -> Seq<(Seq<char>, JsonValueView)> {
    seq![
        ("bid"@, JsonValueView::Str(bundle_id)),
        ("iss"@, JsonValueView::Str(issuer_id)),
        ("aud"@, JsonValueView::Str(token_audience())),
        ("iat"@, JsonValueView::Int(now)),
        ("exp"@, JsonValueView::Int((now + TOKEN_LIFETIME) as i64)),
    ]
}

/// The token for the PEM key bytes `signing_key`, issued at `now`; `None` where the key
/// is not UTF-8 text, does not load, or signing fails.
pub open spec fn api_token(
    signing_key: Seq<u8>,
    key_id: Seq<char>,
    issuer_id: Seq<char>,
    bundle_id: Seq<char>,
    now: i64,
) -> Option<Seq<char>> {
    if !valid_utf8(signing_key) {
        None
    } else {
        match private_key_result(encode_utf8(decode_utf8(signing_key))) {
            Err(_) => None,
            Ok(secret) => match signed_token(key_id, secret, token_claims(issuer_id, bundle_id, now)) {
                Ok(t) => Some(t),
                Err(_) => None,
            },
        }
    }
}

/// The error every token failure is reported as.
pub open spec fn token_failure() -> (u16, Option<i64>, Option<Seq<char>>) {
    (500, None, Some("Failed to sign request token"@))
}

fn token_error() -> (e: ApiClientError)
    ensures
        e@ == token_failure(),
{
    ApiClientError::new(500, None, Some(String::from_str("Failed to sign request token")))
}

/// The token for the PEM key bytes `signing_key`, issued at `now`.
pub fn generate_token_at(signing_key: &[u8], key_id: &str, issuer_id: &str, bundle_id: &str, now: i64) -> (res:
    Result<String, ApiClientError>)
    requires
        now <= i64::MAX - TOKEN_LIFETIME,
    ensures
        match api_token(signing_key@, key_id@, issuer_id@, bundle_id@, now) {
            Some(t) => res matches Ok(s) && s@ == t,
            None => res matches Err(e) && e@ == token_failure(),
        },
        res matches Ok(t) ==> token_carries(t@, key_id@, token_claims(issuer_id@, bundle_id@, now)),
{
    let pem = match utf8_to_string(signing_key) {
        Ok(p) => p,
        Err(_) => return Err(token_error()),
    };
    let provider = RustCrypto;
    let key = match provider.private_key(pem.as_str()) {
        Ok(k) => k,
        Err(_) => return Err(token_error()),
    };
    let mut claims: Vec<(String, JsonValue)> = Vec::new();
    claims.push((String::from_str("bid"), JsonValue::Str(String::from_str(bundle_id))));
    claims.push((String::from_str("iss"), JsonValue::Str(String::from_str(issuer_id))));
    claims.push((String::from_str("aud"), JsonValue::Str(String::from_str("appstoreconnect-v1"))));
    claims.push((String::from_str("iat"), JsonValue::Int(now)));
    claims.push((String::from_str("exp"), JsonValue::Int(now + TOKEN_LIFETIME)));
    proof {
        reveal_strlit("bid");
        reveal_strlit("iss");
        reveal_strlit("aud");
        reveal_strlit("appstoreconnect-v1");
        reveal_strlit("iat");
        reveal_strlit("exp");
        assert(members_view(claims@) =~= token_claims(issuer_id@, bundle_id@, now));
    }
    match sign_payload(key_id, &key, &claims) {
        Ok(t) => Ok(t),
        Err(_) => Err(token_error()),
    }
}

/// Whether `res` is the token `expected`, or the token failure where there is none.
pub open spec fn token_result_matches(res: Result<String, ApiClientError>, expected: Option<Seq<char>>) -> bool {
    match expected {
        Some(t) => res matches Ok(s) && s@ == t,
        None => res matches Err(e) && e@ == token_failure(),
    }
}

/// The token issued when the clock reads `now`: none where the expiry would not fit.
pub open spec fn api_token_at_clock(
    signing_key: Seq<u8>,
    key_id: Seq<char>,
    issuer_id: Seq<char>,
    bundle_id: Seq<char>,
    now: i64,
) -> Option<Seq<char>> {
    if now <= i64::MAX - TOKEN_LIFETIME {
        api_token(signing_key, key_id, issuer_id, bundle_id, now)
    } else {
        None
    }
}

/// A token issued now.
pub fn generate_token(signing_key: &[u8], key_id: &str, issuer_id: &str, bundle_id: &str) -> (res: Result<
    String,
    ApiClientError,
>)
    ensures
        exists|now: i64|
            #[trigger] token_result_matches(
                res,
                api_token_at_clock(signing_key@, key_id@, issuer_id@, bundle_id@, now),
            ),
{
    let now = now_timestamp();
    let res = generate_token_with_clock_reading(signing_key, key_id, issuer_id, bundle_id, now);
    assert(token_result_matches(res, api_token_at_clock(signing_key@, key_id@, issuer_id@, bundle_id@, now)));
    res
}

/// The token issued when the clock reads `now` seconds since the Unix epoch: the token
/// issued at `now`, expiring `TOKEN_LIFETIME` seconds later; the token failure where
/// the key does not sign or the expiry would not fit.
pub fn generate_token_with_clock_reading(
    signing_key: &[u8],
    key_id: &str,
    issuer_id: &str,
    bundle_id: &str,
    now: i64,
) -> (res: Result<String, ApiClientError>)
    ensures
        now <= i64::MAX - TOKEN_LIFETIME ==> token_result_matches(
            res,
            api_token(signing_key@, key_id@, issuer_id@, bundle_id@, now),
        ),
        now > i64::MAX - TOKEN_LIFETIME ==> (res matches Err(e) && e@ == token_failure()),
        res matches Ok(t) ==> token_carries(
            t@,
            key_id@,
            seq![
                ("bid"@, JsonValueView::Str(bundle_id@)),
                ("iss"@, JsonValueView::Str(issuer_id@)),
                ("aud"@, JsonValueView::Str("appstoreconnect-v1"@)),
                ("iat"@, JsonValueView::Int(now)),
                ("exp"@, JsonValueView::Int((now + 300) as i64)),
            ],
        ),
{
    if now > i64::MAX - TOKEN_LIFETIME {
        Err(token_error())
    } else {
        let res = generate_token_at(signing_key, key_id, issuer_id, bundle_id, now);
        proof {
            assert(token_claims(issuer_id@, bundle_id@, now) =~= seq![
                ("bid"@, JsonValueView::Str(bundle_id@)),
                ("iss"@, JsonValueView::Str(issuer_id@)),
                ("aud"@, JsonValueView::Str("appstoreconnect-v1"@)),
                ("iat"@, JsonValueView::Int(now)),
                ("exp"@, JsonValueView::Int((now + 300) as i64)),
            ]);
        }
        res
    }
}

/// Whether an HTTP status is a success (2xx).
pub open spec fn is_success_status(status: u16) -> bool {
    200 <= status < 300
}

/// The outcome of a response: success for a 2xx status, else the error the response
/// body reported (its `errorCode` and `errorMessage`, kept only when both are present).
pub fn check_response_status(status: u16, error_code: Option<i64>, error_message: Option<String>) -> (res: Result<
    (),
    ApiClientError,
>)
    ensures
        res is Ok <==> is_success_status(status),
        res matches Err(e) ==> e@ == match (error_code, error_message) {
            (Some(c), Some(m)) => (status, Some(c), Some(m@)),
            _ => (status, None::<i64>, None::<Seq<char>>),
        },
{
    if 200 <= status && status < 300 {
        Ok(())
    } else {
        Err(ApiClientError::from_error_payload(status, error_code, error_message))
    }
}

} // verus!
