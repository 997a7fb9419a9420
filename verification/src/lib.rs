//! Verified building blocks of an App Store Server library: ASN.1 readers, compact
//! JWS handling and signing, certificate-chain caching and revocation checks, API
//! tokens and the API error catalogues.
pub mod asn1;
pub mod crypto;
pub mod json_text;
pub mod jws_signature_creator;
pub mod chain_verifier;
pub mod chain_verifier_ocsp;
pub mod api_client;
pub mod app_store_server_api_client;
pub mod advanced_commerce_api_client;
