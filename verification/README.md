# app-store-server-library (verified core)

A Rust library for Apple's App Store Server APIs whose logic is written and proved
with Verus.

`src/` is the verified library:

- `asn1` — DER/BER readers (tags, lengths, end-of-contents, integers, UTF8String).
- `crypto` — compact JWS segments and base64url, dotted OIDs, ECDSA P-256 keys
  (curve arithmetic by the `p256` crate) and the DER form of ECDSA signatures.
- `json_text` — JSON text of the flat objects that get signed.
- `jws_signature_creator` — signed promotional-offer, introductory-offer and Advanced
  Commerce requests.
- `chain_verifier` — Apple certificate chains, the App Store chain policy and a
  15-minute cache of verified public keys.
- `chain_verifier_ocsp` — OCSP revocation checks: responder lookup, request, verdict.
- `api_client`, `app_store_server_api_client`, `advanced_commerce_api_client` —
  the API clients: the base URL of each environment, the method, path, query and body
  of every endpoint's call, its headers and bearer token, errors and the API error
  catalogues.

`app/` holds what Verus does not see: serde (de)serialisation of library types,
X.509 chain building with `x509_validator`, the process-wide crypto provider and the
network side of HTTP and OCSP: it percent-encodes query values, sends the calls the
clients plan through a `Transport` and reads the answers.

`tests/` exercises the library on concrete values.
