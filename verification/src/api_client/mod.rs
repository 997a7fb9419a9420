//! The pieces of the API clients that decide: what each call sends, errors, transport
//! failures and the error catalogues.
pub mod api;
pub mod error;
pub mod requests;
pub mod server_api;
pub mod token;
pub mod transport;

pub use server_api::AppStoreServerAPIClient;
