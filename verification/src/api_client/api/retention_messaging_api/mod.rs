//! The Retention Messaging API: its client and the call each endpoint makes.
use vstd::prelude::*;
use crate::api_client::error::ConfigurationError;
use crate::api_client::requests::{
    empty_query, environment_base_url, json_body, no_query, path_with, path_with_two, plan, png_body, png_content_type,
    with_json, xcode_refusal, ApiClient, ApiRequest, Environment, HttpMethod,
};

pub mod api_error_code;

verus! {

/// Marker for the Retention Messaging API.
pub struct RetentionMessagingApi;

/// The Retention Messaging API client: its settings, and the call each endpoint makes.
pub struct RetentionMessagingApiClient {
    inner: ApiClient,
}

impl RetentionMessagingApiClient {
    /// The client's settings.
    pub closed spec fn settings(&self) -> ApiClient {
        self.inner
    }

    /// Creates a client; the Xcode environment is refused.
    pub fn new(signing_key: Vec<u8>, key_id: &str, issuer_id: &str, bundle_id: &str, environment: Environment) -> (res:
        Result<Self, ConfigurationError>)
        ensures
            match environment_base_url(environment) {
                None => res matches Err(ConfigurationError::InvalidEnvironment(m)) && m@ == xcode_refusal(),
                Some(url) => res matches Ok(c) && c.settings().base_url_view() == url
                    && c.settings().signing_key_view() == signing_key@ && c.settings().key_id_view() == key_id@
                    && c.settings().issuer_id_view() == issuer_id@ && c.settings().bundle_id_view() == bundle_id@,
            },
    {
        let inner = ApiClient::new(signing_key, key_id, issuer_id, bundle_id, environment)?;
        Ok(RetentionMessagingApiClient { inner })
    }

    /// The client's settings, which build and authorise each call.
    pub fn api_client(&self) -> (c: &ApiClient)
        ensures
            *c == self.settings(),
    {
        &self.inner
    }

    /// The call that uploads a PNG image for retention messaging.
    pub fn upload_image(&self, image_identifier: &str, image: Vec<u8>) -> (r: ApiRequest)
        ensures
            r@ == (HttpMethod::Put, "/inApps/v1/messaging/image/"@ + image_identifier@, no_query(), Some((image@, png_content_type())), false),
    {
        plan(HttpMethod::Put, path_with("/inApps/v1/messaging/image/", image_identifier), empty_query(), png_body(image), false)
    }

    /// The call that deletes an uploaded image.
    pub fn delete_image(&self, image_identifier: &str) -> (r: ApiRequest)
        ensures
            r@ == (HttpMethod::Delete, "/inApps/v1/messaging/image/"@ + image_identifier@, no_query(), None::<(Seq<u8>, Seq<char>)>, false),
    {
        plan(HttpMethod::Delete, path_with("/inApps/v1/messaging/image/", image_identifier), empty_query(), None, false)
    }

    /// The call that lists the uploaded images.
    pub fn image_list(&self) -> (r: ApiRequest)
        ensures
            r@ == (HttpMethod::Get, "/inApps/v1/messaging/image/list"@, no_query(), None::<(Seq<u8>, Seq<char>)>, true),
    {
        plan(HttpMethod::Get, String::from_str("/inApps/v1/messaging/image/list"), empty_query(), None, true)
    }

    /// The call that uploads a retention message; `body` is the JSON request.
    pub fn upload_message(&self, message_identifier: &str, body: Vec<u8>) -> (r: ApiRequest)
        ensures
            r@ == (HttpMethod::Put, "/inApps/v1/messaging/message/"@ + message_identifier@, no_query(), with_json(body@), false),
    {
        plan(HttpMethod::Put, path_with("/inApps/v1/messaging/message/", message_identifier), empty_query(), json_body(body), false)
    }

    /// The call that deletes an uploaded message.
    pub fn delete_message(&self, message_identifier: &str) -> (r: ApiRequest)
        ensures
            r@ == (HttpMethod::Delete, "/inApps/v1/messaging/message/"@ + message_identifier@, no_query(), None::<(Seq<u8>, Seq<char>)>, false),
    {
        plan(HttpMethod::Delete, path_with("/inApps/v1/messaging/message/", message_identifier), empty_query(), None, false)
    }

    /// The call that lists the uploaded messages.
    pub fn message_list(&self) -> (r: ApiRequest)
        ensures
            r@ == (HttpMethod::Get, "/inApps/v1/messaging/message/list"@, no_query(), None::<(Seq<u8>, Seq<char>)>, true),
    {
        plan(HttpMethod::Get, String::from_str("/inApps/v1/messaging/message/list"), empty_query(), None, true)
    }

    /// The call that configures the default message of a product in a locale; `body` is the JSON request.
    pub fn set_default_configuration(&self, product_id: &str, locale: &str, body: Vec<u8>) -> (r: ApiRequest)
        ensures
            r@ == (HttpMethod::Put, "/inApps/v1/messaging/default/"@ + product_id@ + "/"@ + locale@, no_query(), with_json(body@), false),
    {
        plan(HttpMethod::Put, path_with_two("/inApps/v1/messaging/default/", product_id, "/", locale), empty_query(), json_body(body), false)
    }

    /// The call that gets the default message configuration of a product in a locale.
    pub fn default_configuration(&self, product_id: &str, locale: &str) -> (r: ApiRequest)
        ensures
            r@ == (HttpMethod::Get, "/inApps/v1/messaging/default/"@ + product_id@ + "/"@ + locale@, no_query(), None::<(Seq<u8>, Seq<char>)>, true),
    {
        plan(HttpMethod::Get, path_with_two("/inApps/v1/messaging/default/", product_id, "/", locale), empty_query(), None, true)
    }

    /// The call that deletes the default message configuration of a product in a locale.
    pub fn delete_default_configuration(&self, product_id: &str, locale: &str) -> (r: ApiRequest)
        ensures
            r@ == (HttpMethod::Delete, "/inApps/v1/messaging/default/"@ + product_id@ + "/"@ + locale@, no_query(), None::<(Seq<u8>, Seq<char>)>, false),
    {
        plan(HttpMethod::Delete, path_with_two("/inApps/v1/messaging/default/", product_id, "/", locale), empty_query(), None, false)
    }

    /// The call that starts a performance test; `body` is the JSON request.
    pub fn initiate_performance_test(&self, body: Vec<u8>) -> (r: ApiRequest)
        ensures
            r@ == (HttpMethod::Post, "/inApps/v1/messaging/performanceTest"@, no_query(), with_json(body@), true),
    {
        plan(HttpMethod::Post, String::from_str("/inApps/v1/messaging/performanceTest"), empty_query(), json_body(body), true)
    }

    /// The call that gets the results of a performance test.
    pub fn performance_test_result(&self, request_id: &str) -> (r: ApiRequest)
        ensures
            r@ == (HttpMethod::Get, "/inApps/v1/messaging/performanceTest/result/"@ + request_id@, no_query(), None::<(Seq<u8>, Seq<char>)>, true),
    {
        plan(HttpMethod::Get, path_with("/inApps/v1/messaging/performanceTest/result/", request_id), empty_query(), None, true)
    }

}

} // verus!
