//! The first App Store Server API client: the call each of its endpoints makes.
use vstd::prelude::*;
use crate::api_client::error::ConfigurationError;
use crate::api_client::requests::{
    empty_query, environment_base_url, history_query, json_body, no_query, nonempty_pair, nonempty_query, path_around,
    path_with, path_with_two, plan, status_query, subscription_status_query, transaction_history_query, with_json,
    xcode_refusal, ApiClient, ApiRequest, Environment, HttpMethod, TransactionHistoryRequest,
};
use crate::app_store_server_api_client::{history_version_text, GetTransactionHistoryVersion};

verus! {

/// The first App Store Server API client, with the endpoints it had.
pub struct AppStoreServerAPIClient {
    inner: ApiClient,
}

impl AppStoreServerAPIClient {
    /// The client's settings.
    pub closed spec fn settings(&self) -> ApiClient {
        self.inner
    }

    /// Creates a client; the Xcode environment is refused.
    pub fn new(signing_key: Vec<u8>, key_id: &str, issuer_id: &str, bundle_id: &str, environment: Environment) -> (res:
        Result<Self, ConfigurationError>)
        ensures
            match environment_base_url(environment) {
                None => res matches Err(ConfigurationError::InvalidEnvironment(m)) && m@ == xcode_refusal(),
                Some(url) => res matches Ok(c) && c.settings().base_url_view() == url
                    && c.settings().signing_key_view() == signing_key@ && c.settings().key_id_view() == key_id@
                    && c.settings().issuer_id_view() == issuer_id@ && c.settings().bundle_id_view() == bundle_id@,
            },
    {
        let inner = ApiClient::new(signing_key, key_id, issuer_id, bundle_id, environment)?;
        Ok(AppStoreServerAPIClient { inner })
    }

    /// The client's settings, which build and authorise each call.
    pub fn api_client(&self) -> (c: &ApiClient)
        ensures
            *c == self.settings(),
    {
        &self.inner
    }

    /// The call that gets a customer's transaction history from the given version of
    /// the endpoint: the query holds the revision and the request's constraints, in the
    /// order of [`history_query`].
    pub fn get_transaction_history_with_version(
        &self,
        transaction_id: &str,
        revision: Option<&str>,
        transaction_history_request: &TransactionHistoryRequest,
        version: GetTransactionHistoryVersion,
    ) -> (r: ApiRequest)
        ensures
            r@ == (
                HttpMethod::Get,
                "/inApps/"@ + history_version_text(version) + "/history/"@ + transaction_id@,
                history_query(
                    match revision {
                        Some(v) => Some(v@),
                        None => None,
                    },
                    *transaction_history_request,
                ),
                None::<(Seq<u8>, Seq<char>)>,
                true,
            ),
    {
        let mut path = path_around("/inApps/", version.as_str(), "/history/");
        path.append(transaction_id);
        plan(HttpMethod::Get, path, transaction_history_query(revision, transaction_history_request), None, true)
    }

    /// The transaction-history call of the first version of the endpoint.
    pub fn get_transaction_history(
        &self,
        transaction_id: &str,
        revision: Option<&str>,
        transaction_history_request: &TransactionHistoryRequest,
    ) -> (r: ApiRequest)
        ensures
            r@ == (
                HttpMethod::Get,
                "/inApps/"@ + history_version_text(GetTransactionHistoryVersion::V1) + "/history/"@ + transaction_id@,
                history_query(
                    match revision {
                        Some(v) => Some(v@),
                        None => None,
                    },
                    *transaction_history_request,
                ),
                None::<(Seq<u8>, Seq<char>)>,
                true,
            ),
    {
        self.get_transaction_history_with_version(
            transaction_id,
            revision,
            transaction_history_request,
            GetTransactionHistoryVersion::V1,
        )
    }

    /// The call that extends the renewal date for all eligible active subscribers of a product; `body` is the JSON request.
    pub fn extend_renewal_date_for_all_active_subscribers(&self, body: Vec<u8>) -> (r: ApiRequest)
        ensures
            r@ == (HttpMethod::Post, "/inApps/v1/subscriptions/extend/mass"@, no_query(), with_json(body@), true),
    {
        plan(HttpMethod::Post, String::from_str("/inApps/v1/subscriptions/extend/mass"), empty_query(), json_body(body), true)
    }

    /// The call that extends the renewal date of one subscription; `body` is the JSON request.
    pub fn extend_subscription_renewal_date(&self, original_transaction_id: &str, body: Vec<u8>) -> (r: ApiRequest)
        ensures
            r@ == (HttpMethod::Put, "/inApps/v1/subscriptions/extend/"@ + original_transaction_id@, no_query(), with_json(body@), true),
    {
        plan(HttpMethod::Put, path_with("/inApps/v1/subscriptions/extend/", original_transaction_id), empty_query(), json_body(body), true)
    }

    /// The call that gets the statuses of all of a customer's subscriptions, filtered by the raw status values given.
    pub fn get_all_subscription_statuses(&self, transaction_id: &str, status: Option<&Vec<i32>>) -> (r: ApiRequest)
        ensures
            r@ == (HttpMethod::Get, "/inApps/v1/subscriptions/"@ + transaction_id@, status_query(match status { Some(v) => Some(v@), None => None }), None::<(Seq<u8>, Seq<char>)>, true),
    {
        plan(HttpMethod::Get, path_with("/inApps/v1/subscriptions/", transaction_id), subscription_status_query(status), None, true)
    }

    /// The call that gets a customer's refunded purchases; an empty `revision` asks for the first page.
    pub fn get_refund_history(&self, transaction_id: &str, revision: &str) -> (r: ApiRequest)
        ensures
            r@ == (HttpMethod::Get, "/inApps/v2/refund/lookup/"@ + transaction_id@, nonempty_pair("revision"@, revision@), None::<(Seq<u8>, Seq<char>)>, true),
    {
        plan(HttpMethod::Get, path_with("/inApps/v2/refund/lookup/", transaction_id), nonempty_query("revision", revision), None, true)
    }

    /// The call that checks whether a renewal-date extension for all subscribers has completed.
    pub fn get_status_of_subscription_renewal_date_extensions(&self, request_identifier: &str, product_id: &str) -> (r: ApiRequest)
        ensures
            r@ == (HttpMethod::Get, "/inApps/v1/subscriptions/extend/mass/"@ + product_id@ + "/"@ + request_identifier@, no_query(), None::<(Seq<u8>, Seq<char>)>, true),
    {
        plan(HttpMethod::Get, path_with_two("/inApps/v1/subscriptions/extend/mass/", product_id, "/", request_identifier), empty_query(), None, true)
    }

    /// The call that checks the status of a test notification.
    pub fn get_test_notification_status(&self, test_notification_token: &str) -> (r: ApiRequest)
        ensures
            r@ == (HttpMethod::Get, "/inApps/v1/notifications/test/"@ + test_notification_token@, no_query(), None::<(Seq<u8>, Seq<char>)>, true),
    {
        plan(HttpMethod::Get, path_with("/inApps/v1/notifications/test/", test_notification_token), empty_query(), None, true)
    }

    /// The call that gets notification history; an empty `pagination_token` asks for the first page; `body` is the JSON request.
    pub fn get_notification_history(&self, pagination_token: &str, body: Vec<u8>) -> (r: ApiRequest)
        ensures
            r@ == (HttpMethod::Post, "/inApps/v1/notifications/history"@, nonempty_pair("paginationToken"@, pagination_token@), with_json(body@), true),
    {
        plan(HttpMethod::Post, String::from_str("/inApps/v1/notifications/history"), nonempty_query("paginationToken", pagination_token), json_body(body), true)
    }

    /// The call that gets information about a single transaction.
    pub fn get_transaction_info(&self, transaction_id: &str) -> (r: ApiRequest)
        ensures
            r@ == (HttpMethod::Get, "/inApps/v1/transactions/"@ + transaction_id@, no_query(), None::<(Seq<u8>, Seq<char>)>, true),
    {
        plan(HttpMethod::Get, path_with("/inApps/v1/transactions/", transaction_id), empty_query(), None, true)
    }

    /// The call that gets the purchases of an order.
    pub fn look_up_order_id(&self, order_id: &str) -> (r: ApiRequest)
        ensures
            r@ == (HttpMethod::Get, "/inApps/v1/lookup/"@ + order_id@, no_query(), None::<(Seq<u8>, Seq<char>)>, true),
    {
        plan(HttpMethod::Get, path_with("/inApps/v1/lookup/", order_id), empty_query(), None, true)
    }

    /// The call that asks for a test notification.
    pub fn request_test_notification(&self) -> (r: ApiRequest)
        ensures
            r@ == (HttpMethod::Post, "/inApps/v1/notifications/test"@, no_query(), None::<(Seq<u8>, Seq<char>)>, true),
    {
        plan(HttpMethod::Post, String::from_str("/inApps/v1/notifications/test"), empty_query(), None, true)
    }

    /// The call that sends consumption information about a refund request; `body` is the JSON request.
    pub fn send_consumption_data(&self, transaction_id: &str, body: Vec<u8>) -> (r: ApiRequest)
        ensures
            r@ == (HttpMethod::Put, "/inApps/v1/transactions/consumption/"@ + transaction_id@, no_query(), with_json(body@), false),
    {
        plan(HttpMethod::Put, path_with("/inApps/v1/transactions/consumption/", transaction_id), empty_query(), json_body(body), false)
    }

    /// The call that sets the app account token of a purchase; `body` is the JSON request.
    pub fn set_app_account_token(&self, original_transaction_id: &str, body: Vec<u8>) -> (r: ApiRequest)
        ensures
            r@ == (HttpMethod::Put, "/inApps/v1/transactions/"@ + original_transaction_id@ + "/appAccountToken"@, no_query(), with_json(body@), false),
    {
        plan(HttpMethod::Put, path_around("/inApps/v1/transactions/", original_transaction_id, "/appAccountToken"), empty_query(), json_body(body), false)
    }

}

} // verus!
