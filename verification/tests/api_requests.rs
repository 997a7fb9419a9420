use app_store_server_library::advanced_commerce_api_client::AdvancedCommerceApiClient;
use app_store_server_library::api_client::api::advanced_commerce_api::AdvancedCommerceAPIClient;
use app_store_server_library::api_client::AppStoreServerAPIClient;
use app_store_server_library::api_client::api::retention_messaging_api::RetentionMessagingApiClient;
use app_store_server_library::api_client::error::ConfigurationError;
use app_store_server_library::api_client::requests::{
    transaction_history_query, ApiClient, Environment, HttpMethod, TransactionHistoryRequest,
};
use app_store_server_library::app_store_server_api_client::{AppStoreServerApiClient, GetTransactionHistoryVersion};

// A P-256 key whose secret scalar is 0x01 0x02 .. 0x20, as PKCS#8 DER.
fn test_key_der() -> Vec<u8> {
    let mut der = vec![
        0x30, 0x41, 0x02, 0x01, 0x00, 0x30, 0x13, 0x06, 0x07, 0x2a, 0x86, 0x48, 0xce, 0x3d, 0x02, 0x01, 0x06, 0x08,
        0x2a, 0x86, 0x48, 0xce, 0x3d, 0x03, 0x01, 0x07, 0x04, 0x27, 0x30, 0x25, 0x02, 0x01, 0x01, 0x04, 0x20,
    ];
    der.extend(1u8..=32);
    der
}

// The same key in PEM form, base64 lines of 64 characters between the markers.
fn test_key_pem() -> String {
    let body = base64::Engine::encode(&base64::engine::general_purpose::STANDARD, test_key_der());
    let label = ["PRIVATE", "KEY"].join(" ");
    let mut pem = format!("-----BEGIN {}-----\n", label);
    for chunk in body.as_bytes().chunks(64) {
        pem.push_str(std::str::from_utf8(chunk).unwrap());
        pem.push('\n');
    }
    pem.push_str(&format!("-----END {}-----\n", label));
    pem
}

fn pairs(list: &[(&str, &str)]) -> Vec<(String, String)> {
    list.iter().map(|(k, v)| (k.to_string(), v.to_string())).collect()
}

fn client(environment: Environment) -> AppStoreServerApiClient {
    match AppStoreServerApiClient::new(b"key".to_vec(), "kid", "issuer", "com.example", environment) {
        Ok(c) => c,
        Err(_) => panic!("the environment is supported"),
    }
}

fn empty_history_request() -> TransactionHistoryRequest {
    TransactionHistoryRequest {
        start_date: None,
        end_date: None,
        product_ids: None,
        product_types: None,
        sort: None,
        subscription_group_identifiers: None,
        in_app_ownership_type: None,
        revoked: None,
    }
}

#[test]
fn xcode_is_refused_and_other_environments_have_base_urls() {
    match AppStoreServerApiClient::new(b"key".to_vec(), "kid", "issuer", "com.example", Environment::Xcode) {
        Err(ConfigurationError::InvalidEnvironment(m)) => assert_eq!(
            m,
            "Xcode environment is not supported for App Store Server API calls. Use Sandbox or Production instead."
        ),
        Ok(_) => panic!("Xcode must be refused"),
    }
    assert!(AdvancedCommerceApiClient::new(vec![], "k", "i", "b", Environment::Xcode).is_err());
    assert!(RetentionMessagingApiClient::new(vec![], "k", "i", "b", Environment::Xcode).is_err());
    for (environment, base) in [
        (Environment::Production, "https://api.storekit.itunes.apple.com"),
        (Environment::Sandbox, "https://api.storekit-sandbox.itunes.apple.com"),
        (Environment::LocalTesting, "https://local-testing-base-url"),
    ] {
        let c = client(environment);
        let sent = c.api_client().assemble_request(&c.get_transaction_info("123"), "tok");
        assert_eq!(sent.url, format!("{}/inApps/v1/transactions/123", base));
    }
}

#[test]
fn headers_carry_the_token_and_the_body_type() {
    let c = client(Environment::Sandbox);
    let get = c.api_client().assemble_request(&c.get_transaction_info("1"), "tok");
    assert_eq!(get.method, HttpMethod::Get);
    assert_eq!(
        get.headers,
        pairs(&[
            ("User-Agent", "app-store-server-library/rust/4.3.0"),
            ("Authorization", "Bearer tok"),
            ("Accept", "application/json"),
        ])
    );
    assert!(get.body.is_empty());
    let put = c.api_client().assemble_request(&c.send_consumption_information("9", b"{}".to_vec()), "t");
    assert_eq!(put.method, HttpMethod::Put);
    assert_eq!(put.url, "https://api.storekit-sandbox.itunes.apple.com/inApps/v2/transactions/consumption/9");
    assert_eq!(put.headers[3], ("Content-Type".to_string(), "application/json".to_string()));
    assert_eq!(put.body, b"{}".to_vec());
    let image = c.upload_image("img", vec![1, 2], Some("FULL_SIZE"));
    assert_eq!(image.query, pairs(&[("imageSize", "FULL_SIZE")]));
    let sent = c.api_client().assemble_request(&image, "t");
    assert_eq!(sent.headers[3], ("Content-Type".to_string(), "image/png".to_string()));
}

#[test]
fn transaction_history_query_keeps_the_order_of_the_parameters() {
    let request = TransactionHistoryRequest {
        start_date: Some(1698148900000),
        end_date: Some(1698148950000),
        product_ids: Some(vec!["com.example.1".to_string(), "com.example.2".to_string()]),
        product_types: Some(vec!["CONSUMABLE".to_string(), "AUTO_RENEWABLE".to_string()]),
        sort: Some("ASCENDING".to_string()),
        subscription_group_identifiers: Some(vec!["sub_group_id".to_string(), "sub_group_id_2".to_string()]),
        in_app_ownership_type: Some("FAMILY_SHARED".to_string()),
        revoked: Some(false),
    };
    let c = client(Environment::Production);
    let r = c.get_transaction_history("1234", Some("revision_input"), &request, GetTransactionHistoryVersion::V2);
    assert_eq!(r.method, HttpMethod::Get);
    assert_eq!(r.path, "/inApps/v2/history/1234");
    assert!(r.body.is_none());
    assert!(r.returns_body);
    assert_eq!(
        r.query,
        pairs(&[
            ("revision", "revision_input"),
            ("startDate", "1698148900000"),
            ("endDate", "1698148950000"),
            ("productId", "com.example.1"),
            ("productId", "com.example.2"),
            ("productType", "CONSUMABLE"),
            ("productType", "AUTO_RENEWABLE"),
            ("sort", "ASCENDING"),
            ("subscriptionGroupIdentifier", "sub_group_id"),
            ("subscriptionGroupIdentifier", "sub_group_id_2"),
            ("inAppOwnershipType", "FAMILY_SHARED"),
            ("revoked", "false"),
        ])
    );
    let v1 = c.get_transaction_history_v1("1234", None, &empty_history_request());
    assert_eq!(v1.path, "/inApps/v1/history/1234");
    assert!(v1.query.is_empty());
    assert_eq!(transaction_history_query(None, &empty_history_request()), vec![]);
    let mut only_revoked = empty_history_request();
    only_revoked.revoked = Some(true);
    only_revoked.start_date = Some(-5);
    assert_eq!(transaction_history_query(None, &only_revoked), pairs(&[("startDate", "-5"), ("revoked", "true")]));
}

#[test]
fn optional_query_parameters_appear_only_when_given() {
    let c = client(Environment::Production);
    assert!(c.get_refund_history("1", "").query.is_empty());
    assert_eq!(c.get_refund_history("1", "rev").query, pairs(&[("revision", "rev")]));
    assert_eq!(c.get_refund_history("1", "rev").path, "/inApps/v2/refund/lookup/1");
    assert!(c.get_notification_history("", b"{}".to_vec()).query.is_empty());
    assert_eq!(c.get_notification_history("p", b"{}".to_vec()).query, pairs(&[("paginationToken", "p")]));
    assert_eq!(
        c.get_all_subscription_statuses("4321", Some(&vec![2, 1])).query,
        pairs(&[("status", "2"), ("status", "1")])
    );
    assert!(c.get_all_subscription_statuses("4321", None).query.is_empty());
    assert!(c.get_all_subscription_statuses("4321", Some(&vec![])).query.is_empty());
    assert!(c.upload_image("img", vec![], None).query.is_empty());
}

#[test]
fn endpoint_paths_and_methods() {
    let c = client(Environment::Production);
    let check = |r: app_store_server_library::api_client::requests::ApiRequest, m: HttpMethod, p: &str, body: bool| {
        assert_eq!(r.method, m);
        assert_eq!(r.path, p);
        assert_eq!(r.returns_body, body);
    };
    check(c.extend_renewal_date_for_all_active_subscribers(vec![]), HttpMethod::Post, "/inApps/v1/subscriptions/extend/mass", true);
    check(c.extend_subscription_renewal_date("4124", vec![]), HttpMethod::Put, "/inApps/v1/subscriptions/extend/4124", true);
    check(
        c.get_status_of_subscription_renewal_date_extensions("20fba8a0", "com.example.product"),
        HttpMethod::Get,
        "/inApps/v1/subscriptions/extend/mass/com.example.product/20fba8a0",
        true,
    );
    check(c.get_test_notification_status("8cd2974c"), HttpMethod::Get, "/inApps/v1/notifications/test/8cd2974c", true);
    check(c.get_app_transaction_info("1"), HttpMethod::Get, "/inApps/v1/transactions/appTransactions/1", true);
    check(c.look_up_order_id("W002182"), HttpMethod::Get, "/inApps/v1/lookup/W002182", true);
    check(c.request_test_notification(), HttpMethod::Post, "/inApps/v1/notifications/test", true);
    check(c.finish_transaction("5"), HttpMethod::Post, "/inApps/v1/transactions/5/finish", false);
    check(c.send_consumption_data("49571273", vec![]), HttpMethod::Put, "/inApps/v1/transactions/consumption/49571273", false);
    check(c.set_app_account_token("49571273", vec![]), HttpMethod::Put, "/inApps/v1/transactions/49571273/appAccountToken", false);
    check(c.delete_image("a"), HttpMethod::Delete, "/inApps/v1/messaging/image/a", false);
    check(c.get_image_list(), HttpMethod::Get, "/inApps/v1/messaging/image/list", true);
    check(c.upload_message("m", vec![]), HttpMethod::Put, "/inApps/v1/messaging/message/m", false);
    check(c.delete_message("m"), HttpMethod::Delete, "/inApps/v1/messaging/message/m", false);
    check(c.get_message_list(), HttpMethod::Get, "/inApps/v1/messaging/message/list", true);
    check(c.configure_default_message("p", "en-US", vec![]), HttpMethod::Put, "/inApps/v1/messaging/default/p/en-US", false);
    check(c.delete_default_message("p", "en-US"), HttpMethod::Delete, "/inApps/v1/messaging/default/p/en-US", false);
    check(c.get_default_message("p", "en-US"), HttpMethod::Get, "/inApps/v1/messaging/default/p/en-US", true);
    check(c.configure_realtime_url(vec![]), HttpMethod::Put, "/inApps/v1/messaging/realtime/url", false);
    check(c.delete_realtime_url(), HttpMethod::Delete, "/inApps/v1/messaging/realtime/url", false);
    check(c.get_realtime_url(), HttpMethod::Get, "/inApps/v1/messaging/realtime/url", true);
    check(c.initiate_performance_test(vec![]), HttpMethod::Post, "/inApps/v1/messaging/performanceTest", true);
    check(c.get_performance_test_results("r"), HttpMethod::Get, "/inApps/v1/messaging/performanceTest/result/r", true);

    let a = match AdvancedCommerceApiClient::new(vec![], "k", "i", "b", Environment::Sandbox) {
        Ok(a) => a,
        Err(_) => panic!("sandbox is supported"),
    };
    let cancel = a.cancel_subscription("t1", b"{\"a\":1}".to_vec());
    assert_eq!(cancel.method, HttpMethod::Post);
    assert_eq!(cancel.path, "/advancedCommerce/v1/subscription/cancel/t1");
    assert_eq!(cancel.body, Some((b"{\"a\":1}".to_vec(), "application/json".to_string())));
    assert_eq!(a.request_transaction_refund("t2", vec![]).path, "/advancedCommerce/v1/transaction/requestRefund/t2");
    assert_eq!(a.change_subscription_price("t", vec![]).path, "/advancedCommerce/v1/subscription/changePrice/t");
    assert_eq!(a.change_subscription_metadata("t", vec![]).path, "/advancedCommerce/v1/subscription/changeMetadata/t");
    assert_eq!(a.migrate_subscription("t", vec![]).path, "/advancedCommerce/v1/subscription/migrate/t");
    assert_eq!(a.revoke_subscription("t", vec![]).path, "/advancedCommerce/v1/subscription/revoke/t");

    let r = match RetentionMessagingApiClient::new(vec![], "k", "i", "b", Environment::Production) {
        Ok(r) => r,
        Err(_) => panic!("production is supported"),
    };
    assert_eq!(r.upload_image("i", vec![9]).body, Some((vec![9], "image/png".to_string())));
    assert_eq!(r.set_default_configuration("p", "fr", vec![]).path, "/inApps/v1/messaging/default/p/fr");
    assert_eq!(r.performance_test_result("x").path, "/inApps/v1/messaging/performanceTest/result/x");
    assert_eq!(r.image_list().method, HttpMethod::Get);
}

#[test]
fn a_request_is_built_with_a_fresh_token_or_fails_with_the_token_error() {
    let api = match ApiClient::new(b"not a key".to_vec(), "kid", "iss", "bid", Environment::Sandbox) {
        Ok(a) => a,
        Err(_) => panic!("sandbox is supported"),
    };
    let c = client(Environment::Sandbox);
    match api.build_request_at(&c.get_transaction_info("1"), 1_700_000_000) {
        Err(e) => {
            assert_eq!(e.status(), 500);
            assert_eq!(e.message(), Some("Failed to sign request token"));
        },
        Ok(_) => panic!("the key does not load"),
    }
}

#[test]
fn a_built_request_carries_a_signed_bearer_token() {
    let api = match ApiClient::new(test_key_pem().into_bytes(), "kid", "iss", "bid", Environment::Sandbox) {
        Ok(a) => a,
        Err(_) => panic!("sandbox is supported"),
    };
    let c = client(Environment::Sandbox);
    let sent = match api.build_request_at(&c.get_transaction_info("1"), 1_700_000_000) {
        Ok(s) => s,
        Err(_) => panic!("the key loads"),
    };
    assert_eq!(sent.url, "https://api.storekit-sandbox.itunes.apple.com/inApps/v1/transactions/1");
    let (name, value) = &sent.headers[1];
    assert_eq!(name, "Authorization");
    let token = value.strip_prefix("Bearer ").unwrap();
    assert_eq!(token.split('.').count(), 3);
}

#[test]
fn the_first_clients_make_the_same_calls() {
    let first = match AppStoreServerAPIClient::new(vec![], "k", "i", "b", Environment::Sandbox) {
        Ok(c) => c,
        Err(_) => panic!("sandbox is supported"),
    };
    let mut request = empty_history_request();
    request.product_ids = Some(vec!["a b".to_string()]);
    let r = first.get_transaction_history("77", Some("r"), &request);
    assert_eq!(r.path, "/inApps/v1/history/77");
    assert_eq!(r.query, pairs(&[("revision", "r"), ("productId", "a b")]));
    let r = first.get_transaction_history_with_version("77", None, &request, GetTransactionHistoryVersion::V2);
    assert_eq!(r.path, "/inApps/v2/history/77");
    assert_eq!(first.send_consumption_data("5", vec![]).path, "/inApps/v1/transactions/consumption/5");
    assert!(AppStoreServerAPIClient::new(vec![], "k", "i", "b", Environment::Xcode).is_err());
    let a = match AdvancedCommerceAPIClient::new(vec![], "k", "i", "b", Environment::Production) {
        Ok(a) => a,
        Err(_) => panic!("production is supported"),
    };
    assert_eq!(a.cancel_subscription("t", vec![]).path, "/advancedCommerce/v1/subscription/cancel/t");
}
