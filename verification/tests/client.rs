use docmon::client::{http_date_of_millis, interpret_response, Client, ClientConfig};
use docmon::numfmt::u64_to_string;

use base64::Engine;

// base64("testkey")
const TEST_KEY: &str = "dGVzdGtleQ==";

#[test]
fn it_converts_date() {
    // 2019-01-02 03:04:05 UTC
    let converted = http_date_of_millis(1546398245000);
    assert_eq!(converted, "Wed, 02 Jan 2019 03:04:05 GMT");
}

#[test]
fn it_renders_decimals() {
    assert_eq!(u64_to_string(0), "0");
    assert_eq!(u64_to_string(7), "7");
    assert_eq!(u64_to_string(1234567890), "1234567890");
    assert_eq!(u64_to_string(u64::MAX), "18446744073709551615");
}

#[test]
fn it_builds_the_ingestion_url() {
    let config = ClientConfig::new("demo", TEST_KEY);
    let client = Client::new(config).unwrap();
    assert_eq!(client.url(), "https://demo.ods.opinsights.azure.com/api/logs?api-version=2016-04-01");
}

#[test]
fn it_rejects_a_key_that_is_not_base64() {
    let config = ClientConfig::new("demo", "!!! not base64 !!!");
    let err = Client::new(config).unwrap_err();
    assert_eq!(err.message(), "shared key is not valid base64");
}

#[test]
fn it_splits_configs_into_parts() {
    let config = ClientConfig::new("demo", TEST_KEY);
    let (customer_id, shared_key) = config.into_parts();
    assert_eq!(customer_id.as_str(), "demo");
    assert_eq!(shared_key.as_str(), TEST_KEY);
}

#[test]
fn it_signs_requests_with_the_shared_key_scheme() {
    let config = ClientConfig::new("demo", TEST_KEY);
    let client = Client::new(config).unwrap();
    let date = "Wed, 02 Jan 2019 03:04:05 GMT";
    let content_length = 100;

    let signature = client.build_signature(date, content_length).unwrap();

    // The same signature, computed directly with the crypto primitives.
    let to_sign = format!(
        "POST\n{}\napplication/json\nx-ms-date:{}\n/api/logs",
        content_length, date
    );
    let pkey = openssl::pkey::PKey::hmac(b"testkey").unwrap();
    let mut signer =
        openssl::sign::Signer::new(openssl::hash::MessageDigest::sha256(), &pkey).unwrap();
    signer.update(to_sign.as_bytes()).unwrap();
    let digest = signer.sign_to_vec().unwrap();
    let expected = format!(
        "SharedKey demo:{}",
        base64::engine::general_purpose::STANDARD.encode(&digest)
    );

    assert_eq!(signature, expected);
}

#[test]
fn it_prepares_all_request_headers() {
    let config = ClientConfig::new("demo", TEST_KEY);
    let client = Client::new(config).unwrap();
    let date = "Wed, 02 Jan 2019 03:04:05 GMT";
    let parts = client.prepare_request("StatEntries", date, 2).unwrap();

    assert_eq!(parts.url, "https://demo.ods.opinsights.azure.com/api/logs?api-version=2016-04-01");
    assert_eq!(parts.accept, "application/json");
    assert_eq!(parts.content_type, "application/json");
    assert_eq!(parts.log_type, "StatEntries");
    assert_eq!(parts.x_ms_date, date);
    assert_eq!(parts.time_generated_field, "timestamp");
    assert_eq!(parts.authorization, client.build_signature(date, 2).unwrap());
}

#[test]
fn it_accepts_only_status_200() {
    assert!(interpret_response(200, String::new()).is_ok());

    let err = interpret_response(500, "oops".to_string()).unwrap_err();
    assert_eq!(err.status, 500);
    assert_eq!(err.body, "oops");
    assert_eq!(err.message(), "unexpected response status 500: oops");

    let err = interpret_response(403, String::new()).unwrap_err();
    assert_eq!(err.status, 403);
}
