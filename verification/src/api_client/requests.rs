//! What the API clients send: the environment's base URL, the method, path, query and
//! body of each call, and the headers that go with them. Sending is left to a transport.
use vstd::prelude::*;
use crate::api_client::error::{ApiClientError, ConfigurationError};
use crate::api_client::token::{
    api_token, api_token_at_clock, generate_token, generate_token_at, token_failure, token_result_matches, TOKEN_LIFETIME,
};
use crate::json_text::{decimal_string, decimal_text};

verus! {

/// The App Store environment a client talks to.
#[derive(Debug, Clone, Copy, PartialEq, Eq, Structural)]
pub enum Environment {
    Production,
    Sandbox,
    Xcode,
    LocalTesting,
}

/// The base URL of the API in an environment; none for Xcode, which only serves local
/// receipt validation.
pub open spec fn environment_base_url(environment: Environment) -> Option<Seq<char>> {
    match environment {
        Environment::Production => Some("https://api.storekit.itunes.apple.com"@),
        Environment::Sandbox => Some("https://api.storekit-sandbox.itunes.apple.com"@),
        Environment::LocalTesting => Some("https://local-testing-base-url"@),
        Environment::Xcode => None,
    }
}

/// The message a client configured for Xcode is refused with.
pub open spec fn xcode_refusal() -> Seq<char> {
    "Xcode environment is not supported for App Store Server API calls. Use Sandbox or Production instead."@
}

/// The HTTP method of a call.
#[derive(Debug, Clone, Copy, PartialEq, Eq, Structural)]
pub enum HttpMethod {
    Get,
    Post,
    Put,
    Delete,
}

impl HttpMethod {
    /// The method's name on the wire.
    pub fn as_str(&self) -> (s: &'static str)
        ensures
            s@ == match self {
                HttpMethod::Get => "GET"@,
                HttpMethod::Post => "POST"@,
                HttpMethod::Put => "PUT"@,
                HttpMethod::Delete => "DELETE"@,
            },
    {
        match self {
            HttpMethod::Get => "GET",
            HttpMethod::Post => "POST",
            HttpMethod::Put => "PUT",
            HttpMethod::Delete => "DELETE",
        }
    }
}

/// Query parameters as plain values, in order.
pub open spec fn pairs_view(q: Seq<(String, String)>) -> Seq<(Seq<char>, Seq<char>)> {
    q.map_values(|p: (String, String)| (p.0@, p.1@))
}

/// A body as plain values: its bytes and content type.
pub open spec fn body_view(b: Option<(Vec<u8>, String)>) -> Option<(Seq<u8>, Seq<char>)> {
    match b {
        Some((bytes, content_type)) => Some((bytes@, content_type@)),
        None => None,
    }
}

/// One call of an API: method, path, query parameters (their values not yet
/// percent-encoded), body with its content type, and whether the answer carries a JSON body.
pub struct ApiRequest {
    pub method: HttpMethod,
    pub path: String,
    pub query: Vec<(String, String)>,
    pub body: Option<(Vec<u8>, String)>,
    pub returns_body: bool,
}

/// A call as plain values.
pub type ApiRequestView = (HttpMethod, Seq<char>, Seq<(Seq<char>, Seq<char>)>, Option<(Seq<u8>, Seq<char>)>, bool);

impl View for ApiRequest {
    type V = ApiRequestView;

    open spec fn view(&self) -> ApiRequestView {
        (self.method, self.path@, pairs_view(self.query@), body_view(self.body), self.returns_body)
    }
}

/// The content type of JSON bodies.
pub open spec fn json_content_type() -> Seq<char> {
    "application/json"@
}

/// A call with a JSON body.
pub open spec fn with_json(body: Seq<u8>) -> Option<(Seq<u8>, Seq<char>)> {
    Some((body, json_content_type()))
}

/// A call as sent: method, full URL without the query, query parameters, headers in
/// order, and body bytes.
pub struct HttpRequest {
    pub method: HttpMethod,
    pub url: String,
    pub query: Vec<(String, String)>,
    pub headers: Vec<(String, String)>,
    pub body: Vec<u8>,
}

/// The user agent the clients announce.
pub open spec fn user_agent() -> Seq<char> {
    "app-store-server-library/rust/4.3.0"@
}

/// The headers of a call authorised by `token`: user agent, bearer authorisation and
/// JSON accept, then the body's content type where there is a body.
pub open spec fn request_headers(token: Seq<char>, content_type: Option<Seq<char>>) -> Seq<(Seq<char>, Seq<char>)> {
    let base = seq![
        ("User-Agent"@, user_agent()),
        ("Authorization"@, "Bearer "@ + token),
        ("Accept"@, json_content_type()),
    ];
    match content_type {
        Some(ct) => base.push(("Content-Type"@, ct)),
        None => base,
    }
}

/// What is sent for `request`, authorised by `token`, to the API at `base_url`.
pub open spec fn sent_request(base_url: Seq<char>, request: ApiRequestView, token: Seq<char>) -> (
    HttpMethod,
    Seq<char>,
    Seq<(Seq<char>, Seq<char>)>,
    Seq<(Seq<char>, Seq<char>)>,
    Seq<u8>,
) {
    (
        request.0,
        base_url + request.1,
        request.2,
        request_headers(
            token,
            match request.3 {
                Some((_, ct)) => Some(ct),
                None => None,
            },
        ),
        match request.3 {
            Some((b, _)) => b,
            None => Seq::empty(),
        },
    )
}

impl View for HttpRequest {
    type V = (HttpMethod, Seq<char>, Seq<(Seq<char>, Seq<char>)>, Seq<(Seq<char>, Seq<char>)>, Seq<u8>);

    open spec fn view(&self) -> Self::V {
        (self.method, self.url@, pairs_view(self.query@), pairs_view(self.headers@), self.body@)
    }
}

fn copy_str(s: &str) -> (r: String)
    ensures
        r@ == s@,
{
    String::from_str(s)
}

fn copy_pairs(q: &Vec<(String, String)>) -> (r: Vec<(String, String)>)
    ensures
        pairs_view(r@) == pairs_view(q@),
{
    let mut r: Vec<(String, String)> = Vec::new();
    let mut i: usize = 0;
    while i < q.len()
        invariant
            i <= q@.len(),
            pairs_view(r@) == pairs_view(q@).take(i as int),
        decreases q@.len() - i,
    {
        let k = copy_str(q[i].0.as_str());
        let v = copy_str(q[i].1.as_str());
        let ghost before = r@;
        r.push((k, v));
        assert(r@ =~= before.push((k, v)));
        assert(pairs_view(r@) =~= pairs_view(before).push((k@, v@)));
        assert(pairs_view(q@)[i as int] == (q@[i as int].0@, q@[i as int].1@));
        assert(pairs_view(q@).take(i + 1) =~= pairs_view(q@).take(i as int).push(pairs_view(q@)[i as int]));
        i += 1;
    }
    assert(pairs_view(q@).take(q@.len() as int) =~= pairs_view(q@));
    r
}

fn copy_bytes(b: &[u8]) -> (r: Vec<u8>)
    ensures
        r@ == b@,
{
    let mut r: Vec<u8> = Vec::new();
    let mut i: usize = 0;
    while i < b.len()
        invariant
            i <= b@.len(),
            r@ == b@.take(i as int),
        decreases b@.len() - i,
    {
        r.push(b[i]);
        assert(r@ =~= b@.take(i + 1));
        i += 1;
    }
    assert(b@.take(b@.len() as int) =~= b@);
    r
}

/// The headers of a call authorised by `token`.
pub fn headers_for(token: &str, content_type: Option<&str>) -> (h: Vec<(String, String)>)
    ensures
        pairs_view(h@) == request_headers(
            token@,
            match content_type {
                Some(ct) => Some(ct@),
                None => None,
            },
        ),
{
    let mut h: Vec<(String, String)> = Vec::new();
    h.push((String::from_str("User-Agent"), String::from_str("app-store-server-library/rust/4.3.0")));
    let mut bearer = String::from_str("Bearer ");
    bearer.append(token);
    h.push((String::from_str("Authorization"), bearer));
    h.push((String::from_str("Accept"), String::from_str("application/json")));
    match content_type {
        Some(ct) => {
            h.push((String::from_str("Content-Type"), copy_str(ct)));
        },
        None => {},
    }
    proof {
        assert(pairs_view(h@) =~= request_headers(
            token@,
            match content_type {
                Some(ct) => Some(ct@),
                None => None,
            },
        ));
    }
    h
}

/// The settings every API client shares: the environment's base URL, the PEM signing
/// key and the identifiers the tokens carry.
pub struct ApiClient {
    base_url: String,
    signing_key: Vec<u8>,
    key_id: String,
    issuer_id: String,
    bundle_id: String,
}

impl ApiClient {
    /// The base URL requests go to.
    pub closed spec fn base_url_view(&self) -> Seq<char> {
        self.base_url@
    }

    /// The PEM signing key, as bytes.
    pub closed spec fn signing_key_view(&self) -> Seq<u8> {
        self.signing_key@
    }

    /// The key identifier tokens name.
    pub closed spec fn key_id_view(&self) -> Seq<char> {
        self.key_id@
    }

    /// The issuer tokens name.
    pub closed spec fn issuer_id_view(&self) -> Seq<char> {
        self.issuer_id@
    }

    /// The bundle tokens name.
    pub closed spec fn bundle_id_view(&self) -> Seq<char> {
        self.bundle_id@
    }

    /// Creates the settings of an API client; the Xcode environment, which only serves
    /// local receipt validation, is refused.
    pub fn new(signing_key: Vec<u8>, key_id: &str, issuer_id: &str, bundle_id: &str, environment: Environment) -> (res:
        Result<Self, ConfigurationError>)
        ensures
            match environment_base_url(environment) {
                None => res matches Err(ConfigurationError::InvalidEnvironment(m)) && m@ == xcode_refusal(),
                Some(url) => res matches Ok(c) && c.base_url_view() == url && c.signing_key_view() == signing_key@
                    && c.key_id_view() == key_id@ && c.issuer_id_view() == issuer_id@ && c.bundle_id_view()
                    == bundle_id@,
            },
    {
        let base_url = match environment {
            Environment::Xcode => {
                return Err(
                    ConfigurationError::InvalidEnvironment(
                        String::from_str(
                            "Xcode environment is not supported for App Store Server API calls. Use Sandbox or Production instead.",
                        ),
                    ),
                );
            },
            Environment::Production => "https://api.storekit.itunes.apple.com",
            Environment::Sandbox => "https://api.storekit-sandbox.itunes.apple.com",
            Environment::LocalTesting => "https://local-testing-base-url",
        };
        Ok(
            ApiClient {
                base_url: String::from_str(base_url),
                signing_key,
                key_id: String::from_str(key_id),
                issuer_id: String::from_str(issuer_id),
                bundle_id: String::from_str(bundle_id),
            },
        )
    }

    /// The call as sent, authorised by `token`.
    pub fn assemble_request(&self, request: &ApiRequest, token: &str) -> (r: HttpRequest)
        ensures
            r@ == sent_request(self.base_url_view(), request@, token@),
    {
        let mut url = copy_str(self.base_url.as_str());
        url.append(request.path.as_str());
        let (headers, body) = match &request.body {
            Some((bytes, content_type)) => (headers_for(token, Some(content_type.as_str())), copy_bytes(bytes.as_slice())),
            None => (headers_for(token, None), Vec::new()),
        };
        let r = HttpRequest { method: request.method, url, query: copy_pairs(&request.query), headers, body };
        assert(r@ =~= sent_request(self.base_url_view(), request@, token@));
        r
    }

    /// The call as sent at time `now`, authorised by a token issued then; the token
    /// failure where no token can be made.
    pub fn build_request_at(&self, request: &ApiRequest, now: i64) -> (res: Result<HttpRequest, ApiClientError>)
        requires
            now <= i64::MAX - TOKEN_LIFETIME,
        ensures
            match api_token(
                self.signing_key_view(),
                self.key_id_view(),
                self.issuer_id_view(),
                self.bundle_id_view(),
                now,
            ) {
                Some(t) => res matches Ok(r) && r@ == sent_request(self.base_url_view(), request@, t),
                None => res matches Err(e) && e@ == token_failure(),
            },
    {
        let token = generate_token_at(
            self.signing_key.as_slice(),
            self.key_id.as_str(),
            self.issuer_id.as_str(),
            self.bundle_id.as_str(),
            now,
        )?;
        Ok(self.assemble_request(request, token.as_str()))
    }

    /// The call as sent now, authorised by a token issued now.
    pub fn build_request(&self, request: &ApiRequest) -> (res: Result<HttpRequest, ApiClientError>)
        ensures
            res matches Err(e) ==> e@ == token_failure(),
            res matches Ok(r) ==> exists|now: i64|
                #![trigger api_token(
                    self.signing_key_view(),
                    self.key_id_view(),
                    self.issuer_id_view(),
                    self.bundle_id_view(),
                    now,
                )]
                api_token(
                    self.signing_key_view(),
                    self.key_id_view(),
                    self.issuer_id_view(),
                    self.bundle_id_view(),
                    now,
                ) matches Some(t) && r@ == sent_request(self.base_url_view(), request@, t),
    {
        let token = generate_token(
            self.signing_key.as_slice(),
            self.key_id.as_str(),
            self.issuer_id.as_str(),
            self.bundle_id.as_str(),
        )?;
        let r = self.assemble_request(request, token.as_str());
        proof {
            let now = choose|now: i64|
                #[trigger] token_result_matches(
                    Ok::<String, ApiClientError>(token),
                    api_token_at_clock(
                        self.signing_key_view(),
                        self.key_id_view(),
                        self.issuer_id_view(),
                        self.bundle_id_view(),
                        now,
                    ),
                );
            assert(api_token(
                self.signing_key_view(),
                self.key_id_view(),
                self.issuer_id_view(),
                self.bundle_id_view(),
                now,
            ) == Some(token@));
        }
        Ok(r)
    }
}

/// `prefix` followed by `id`.
pub fn path_with(prefix: &str, id: &str) -> (p: String)
    ensures
        p@ == prefix@ + id@,
{
    let mut p = String::from_str(prefix);
    p.append(id);
    p
}

/// `prefix`, `first`, `separator`, `second`.
pub fn path_with_two(prefix: &str, first: &str, separator: &str, second: &str) -> (p: String)
    ensures
        p@ == prefix@ + first@ + separator@ + second@,
{
    let mut p = String::from_str(prefix);
    p.append(first);
    p.append(separator);
    p.append(second);
    p
}

/// A call with the given parts.
pub fn plan(method: HttpMethod, path: String, query: Vec<(String, String)>, body: Option<(Vec<u8>, String)>, returns_body: bool) -> (r:
    ApiRequest)
    ensures
        r@ == (method, path@, pairs_view(query@), body_view(body), returns_body),
{
    ApiRequest { method, path, query, body, returns_body }
}

/// A JSON body.
pub fn json_body(bytes: Vec<u8>) -> (b: Option<(Vec<u8>, String)>)
    ensures
        body_view(b) == with_json(bytes@),
{
    Some((bytes, String::from_str("application/json")))
}

/// No query parameters.
pub open spec fn no_query() -> Seq<(Seq<char>, Seq<char>)> {
    Seq::empty()
}

/// An empty query.
pub fn empty_query() -> (q: Vec<(String, String)>)
    ensures
        pairs_view(q@) == no_query(),
{
    let q: Vec<(String, String)> = Vec::new();
    assert(pairs_view(q@) =~= no_query());
    q
}

/// The query holding `key` with `value`, where there is a value.
pub fn optional_query(key: &str, value: Option<&str>) -> (q: Vec<(String, String)>)
    ensures
        pairs_view(q@) == optional_pair(
            key@,
            match value {
                Some(v) => Some(v@),
                None => None,
            },
        ),
{
    let mut q: Vec<(String, String)> = Vec::new();
    match value {
        Some(v) => push_pair(&mut q, key, copy_str(v)),
        None => {},
    }
    assert(pairs_view(q@) =~= optional_pair(
        key@,
        match value {
            Some(v) => Some(v@),
            None => None,
        },
    ));
    q
}

/// `prefix`, `id`, `suffix`.
pub fn path_around(prefix: &str, id: &str, suffix: &str) -> (p: String)
    ensures
        p@ == prefix@ + id@ + suffix@,
{
    let mut p = String::from_str(prefix);
    p.append(id);
    p.append(suffix);
    p
}

/// The content type of uploaded images.
pub open spec fn png_content_type() -> Seq<char> {
    "image/png"@
}

/// A PNG image body.
pub fn png_body(bytes: Vec<u8>) -> (b: Option<(Vec<u8>, String)>)
    ensures
        body_view(b) == Some((bytes@, png_content_type())),
{
    Some((bytes, String::from_str("image/png")))
}

/// The parameter `key` with `value`, where there is a value.
pub open spec fn optional_pair(key: Seq<char>, value: Option<Seq<char>>) -> Seq<(Seq<char>, Seq<char>)> {
    match value {
        Some(v) => seq![(key, v)],
        None => Seq::empty(),
    }
}

/// The parameter `key` once for each value, in order.
pub open spec fn repeated_pairs(key: Seq<char>, values: Option<Seq<Seq<char>>>) -> Seq<(Seq<char>, Seq<char>)> {
    match values {
        Some(vs) => vs.map_values(|v: Seq<char>| (key, v)),
        None => Seq::empty(),
    }
}

/// Optional text as plain values.
pub open spec fn text_option(o: Option<String>) -> Option<Seq<char>> {
    match o {
        Some(s) => Some(s@),
        None => None,
    }
}

/// An optional list of texts as plain values.
pub open spec fn texts_option(o: Option<Vec<String>>) -> Option<Seq<Seq<char>>> {
    match o {
        Some(v) => Some(v@.map_values(|s: String| s@)),
        None => None,
    }
}

/// Appends the parameter `key` with `value`.
fn push_pair(q: &mut Vec<(String, String)>, key: &str, value: String)
    ensures
        pairs_view(final(q)@) == pairs_view(old(q)@).push((key@, value@)),
{
    q.push((String::from_str(key), value));
    assert(pairs_view(q@) =~= pairs_view(old(q)@).push((key@, value@)));
}

/// Appends the parameter `key` once for each value, in order.
fn push_repeated(q: &mut Vec<(String, String)>, key: &str, values: &Option<Vec<String>>)
    ensures
        pairs_view(final(q)@) == pairs_view(old(q)@) + repeated_pairs(key@, texts_option(*values)),
{
    match values {
        None => {
            assert(pairs_view(q@) =~= pairs_view(old(q)@) + repeated_pairs(key@, texts_option(*values)));
        },
        Some(vs) => {
            let ghost start = pairs_view(q@);
            let ghost all = repeated_pairs(key@, texts_option(*values));
            let mut i: usize = 0;
            while i < vs.len()
                invariant
                    i <= vs@.len(),
                    all == vs@.map_values(|s: String| s@).map_values(|v: Seq<char>| (key@, v)),
                    pairs_view(q@) == start + all.take(i as int),
                decreases vs@.len() - i,
            {
                push_pair(q, key, copy_str(vs[i].as_str()));
                assert(all.take(i + 1) =~= all.take(i as int).push((key@, vs@[i as int]@)));
                assert(pairs_view(q@) =~= start + all.take(i + 1));
                i += 1;
            }
            assert(all.take(vs@.len() as int) =~= all);
        },
    }
}

/// Appends the parameter `key` with `value`, where there is a value.
fn push_optional(q: &mut Vec<(String, String)>, key: &str, value: &Option<String>)
    ensures
        pairs_view(final(q)@) == pairs_view(old(q)@) + optional_pair(key@, text_option(*value)),
{
    match value {
        Some(v) => {
            push_pair(q, key, copy_str(v.as_str()));
        },
        None => {},
    }
    assert(pairs_view(q@) =~= pairs_view(old(q)@) + optional_pair(key@, text_option(*value)));
}

/// The text of a boolean, as Rust writes it.
pub open spec fn bool_text(b: bool) -> Seq<char> {
    if b {
        "true"@
    } else {
        "false"@
    }
}

fn bool_string(b: bool) -> (s: String)
    ensures
        s@ == bool_text(b),
{
    if b {
        String::from_str("true")
    } else {
        String::from_str("false")
    }
}

/// The constraints of a transaction-history query, as plain values: start and end
/// dates in milliseconds since the epoch, product identifiers, product types, sort
/// order, subscription groups, ownership type (each by its raw value) and revocation.
pub struct TransactionHistoryRequest {
    pub start_date: Option<i64>,
    pub end_date: Option<i64>,
    pub product_ids: Option<Vec<String>>,
    pub product_types: Option<Vec<String>>,
    pub sort: Option<String>,
    pub subscription_group_identifiers: Option<Vec<String>>,
    pub in_app_ownership_type: Option<String>,
    pub revoked: Option<bool>,
}

/// An optional integer as decimal text.
pub open spec fn decimal_option(o: Option<i64>) -> Option<Seq<char>> {
    match o {
        Some(i) => Some(decimal_text(i as int)),
        None => None,
    }
}

/// The query of a transaction-history call, in this order: the revision, start and
/// end dates, each product identifier, each product type, the sort order, each
/// subscription group, the ownership type and the revocation flag, each only where given.
pub open spec fn history_query(revision: Option<Seq<char>>, request: TransactionHistoryRequest) -> Seq<
    (Seq<char>, Seq<char>),
> {
    optional_pair("revision"@, revision) + optional_pair("startDate"@, decimal_option(request.start_date))
        + optional_pair("endDate"@, decimal_option(request.end_date)) + repeated_pairs(
        "productId"@,
        texts_option(request.product_ids),
    ) + repeated_pairs("productType"@, texts_option(request.product_types)) + optional_pair(
        "sort"@,
        text_option(request.sort),
    ) + repeated_pairs("subscriptionGroupIdentifier"@, texts_option(request.subscription_group_identifiers))
        + optional_pair("inAppOwnershipType"@, text_option(request.in_app_ownership_type)) + optional_pair(
        "revoked"@,
        match request.revoked {
            Some(b) => Some(bool_text(b)),
            None => None,
        },
    )
}

/// The query parameters of a transaction-history call.
pub fn transaction_history_query(revision: Option<&str>, request: &TransactionHistoryRequest) -> (q: Vec<
    (String, String),
>)
    ensures
        pairs_view(q@) == history_query(
            match revision {
                Some(r) => Some(r@),
                None => None,
            },
            *request,
        ),
{
    let mut q: Vec<(String, String)> = Vec::new();
    let revision_text = match revision {
        Some(r) => Some(copy_str(r)),
        None => None,
    };
    push_optional(&mut q, "revision", &revision_text);
    let start = match request.start_date {
        Some(ms) => Some(decimal_string(ms)),
        None => None,
    };
    push_optional(&mut q, "startDate", &start);
    let end = match request.end_date {
        Some(ms) => Some(decimal_string(ms)),
        None => None,
    };
    push_optional(&mut q, "endDate", &end);
    push_repeated(&mut q, "productId", &request.product_ids);
    push_repeated(&mut q, "productType", &request.product_types);
    push_optional(&mut q, "sort", &request.sort);
    push_repeated(&mut q, "subscriptionGroupIdentifier", &request.subscription_group_identifiers);
    push_optional(&mut q, "inAppOwnershipType", &request.in_app_ownership_type);
    let revoked = match request.revoked {
        Some(b) => Some(bool_string(b)),
        None => None,
    };
    push_optional(&mut q, "revoked", &revoked);
    proof {
        assert(pairs_view(q@) =~= history_query(
            match revision {
                Some(r) => Some(r@),
                None => None,
            },
            *request,
        ));
    }
    q
}

/// The parameter `key` with `value`, where `value` is not empty.
pub open spec fn nonempty_pair(key: Seq<char>, value: Seq<char>) -> Seq<(Seq<char>, Seq<char>)> {
    if value.len() == 0 {
        Seq::empty()
    } else {
        seq![(key, value)]
    }
}

/// The query holding `key` with `value`, where `value` is not empty.
pub fn nonempty_query(key: &str, value: &str) -> (q: Vec<(String, String)>)
    ensures
        pairs_view(q@) == nonempty_pair(key@, value@),
{
    let mut q: Vec<(String, String)> = Vec::new();
    if value.unicode_len() > 0 {
        push_pair(&mut q, key, copy_str(value));
    }
    assert(pairs_view(q@) =~= nonempty_pair(key@, value@));
    q
}

/// The query holding `status` once for each status's raw value, in order.
pub open spec fn status_query(status: Option<Seq<i32>>) -> Seq<(Seq<char>, Seq<char>)> {
    match status {
        Some(s) => s.map_values(|v: i32| ("status"@, decimal_text(v as int))),
        None => Seq::empty(),
    }
}

/// The query of a subscription-status call.
pub fn subscription_status_query(status: Option<&Vec<i32>>) -> (q: Vec<(String, String)>)
    ensures
        pairs_view(q@) == status_query(
            match status {
                Some(s) => Some(s@),
                None => None,
            },
        ),
{
    let mut q: Vec<(String, String)> = Vec::new();
    match status {
        None => {},
        Some(s) => {
            let ghost all = status_query(Some(s@));
            let mut i: usize = 0;
            while i < s.len()
                invariant
                    i <= s@.len(),
                    all == s@.map_values(|v: i32| ("status"@, decimal_text(v as int))),
                    pairs_view(q@) == all.take(i as int),
                decreases s@.len() - i,
            {
                push_pair(&mut q, "status", decimal_string(s[i] as i64));
                assert(all.take(i + 1) =~= all.take(i as int).push(("status"@, decimal_text(s@[i as int] as int))));
                i += 1;
            }
            assert(all.take(s@.len() as int) =~= all);
        },
    }
    assert(pairs_view(q@) =~= status_query(
        match status {
            Some(s) => Some(s@),
            None => None,
        },
    ));
    q
}

} // verus!
