use api_key_auth::storage::{client_settings, S3Config};

fn config(key: &str, secret: &str, endpoint: Option<&str>) -> S3Config {
    S3Config {
        region: "us-east-1".to_string(),
        access_key_id: key.to_string(),
        secret_access_key: secret.to_string(),
        endpoint: endpoint.map(|url| url.to_string()),
    }
}

#[test]
fn settings_take_over_region_endpoint_and_credentials() {
    let settings = client_settings(&config("test_key", "test_secret", Some("http://localhost:4566")));
    assert_eq!(settings.region, "us-east-1");
    assert_eq!(settings.endpoint_url.as_deref(), Some("http://localhost:4566"));
    let credentials = settings.credentials.unwrap();
    assert_eq!(credentials.access_key_id, "test_key");
    assert_eq!(credentials.secret_access_key, "test_secret");
}

#[test]
fn credentials_need_both_of_their_parts() {
    assert!(client_settings(&config("", "test_secret", None)).credentials.is_none());
    assert!(client_settings(&config("test_key", "", None)).credentials.is_none());
    assert!(client_settings(&config("", "", None)).credentials.is_none());
    assert!(client_settings(&config("k", "s", None)).credentials.is_some());
}

#[test]
fn endpoint_is_left_out_where_none_is_configured() {
    let settings = client_settings(&config("k", "s", None));
    assert!(settings.endpoint_url.is_none());
    assert_eq!(settings.region, "us-east-1");
}
