//! The Advanced Commerce API.
use vstd::prelude::*;

pub mod api_error_code;

verus! {

/// Marker for the Advanced Commerce API.
pub struct AdvancedCommerceAPI;

/// The Advanced Commerce API client under its first name.
pub type AdvancedCommerceAPIClient = crate::advanced_commerce_api_client::AdvancedCommerceApiClient;

} // verus!
