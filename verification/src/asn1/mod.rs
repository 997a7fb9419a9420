//! Minimal BER/DER readers used to walk App Store receipts and certificate extensions.
pub mod asn1_basics;
