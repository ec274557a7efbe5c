use pg_analytics::options::TableOptions;
use pg_analytics::secret::{create_secret, UserMappingOptions};

fn options_from(pairs: Vec<(String, String)>) -> TableOptions {
    let mut opts = TableOptions::new();
    for (k, v) in pairs {
        opts.set(k, v);
    }
    opts
}

#[test]
fn test_create_s3_secret_config_valid() {
    let secret_name = "s3_secret";
    let user_mapping_options = options_from(vec![
        (
            UserMappingOptions::Type.as_str().to_string(),
            "S3".to_string(),
        ),
        (
            UserMappingOptions::Provider.as_str().to_string(),
            "CONFIG".to_string(),
        ),
        (
            UserMappingOptions::KeyId.as_str().to_string(),
            "key_id".to_string(),
        ),
        (
            UserMappingOptions::Secret.as_str().to_string(),
            "secret".to_string(),
        ),
        (
            UserMappingOptions::Region.as_str().to_string(),
            "us-west-2".to_string(),
        ),
        (
            UserMappingOptions::SessionToken.as_str().to_string(),
            "session_token".to_string(),
        ),
        (
            UserMappingOptions::Endpoint.as_str().to_string(),
            "s3.amazonaws.com".to_string(),
        ),
        (
            UserMappingOptions::UrlStyle.as_str().to_string(),
            "vhost".to_string(),
        ),
        (
            UserMappingOptions::UseSsl.as_str().to_string(),
            "true".to_string(),
        ),
        (
            UserMappingOptions::UrlCompatibilityMode.as_str().to_string(),
            "true".to_string(),
        ),
    ]);

    let expected = "CREATE OR REPLACE SECRET s3_secret (TYPE S3, PROVIDER CONFIG, KEY_ID 'key_id', SECRET 'secret', REGION 'us-west-2', SESSION_TOKEN 'session_token', ENDPOINT 's3.amazonaws.com', URL_STYLE 'vhost', USE_SSL true, URL_COMPATIBILITY_MODE true)";
    let actual = create_secret(secret_name, &user_mapping_options).unwrap();

    assert_eq!(expected, actual);
}

#[test]
fn test_create_s3_secret_config_invalid() {
    let secret_name = "s3_secret";
    let user_mapping_options = options_from(vec![
        (
            UserMappingOptions::Type.as_str().to_string(),
            "S3".to_string(),
        ),
        (
            UserMappingOptions::Provider.as_str().to_string(),
            "TENANT_ID".to_string(),
        ),
    ]);

    let actual = create_secret(secret_name, &user_mapping_options).unwrap();
    // The statement is built as written; the engine rejects the bogus
    // provider when the secret is created.
    assert_eq!(
        "CREATE OR REPLACE SECRET s3_secret (TYPE S3, PROVIDER TENANT_ID)",
        actual
    );
}

#[test]
fn test_create_azure_secret_valid() {
    let secret_name = "azure_secret";
    let user_mapping_options = options_from(vec![
        (
            UserMappingOptions::Type.as_str().to_string(),
            "AZURE".to_string(),
        ),
        (
            UserMappingOptions::Provider.as_str().to_string(),
            "CONFIG".to_string(),
        ),
        (
            UserMappingOptions::ConnectionString.as_str().to_string(),
            "connection_string".to_string(),
        ),
        (
            UserMappingOptions::HttpProxy.as_str().to_string(),
            "http_proxy".to_string(),
        ),
        (
            UserMappingOptions::ProxyUserName.as_str().to_string(),
            "proxy_user_name".to_string(),
        ),
        (
            UserMappingOptions::ProxyPassword.as_str().to_string(),
            "proxy_password".to_string(),
        ),
    ]);

    let expected = "CREATE OR REPLACE SECRET azure_secret (TYPE AZURE, PROVIDER CONFIG, CONNECTION_STRING 'connection_string', HTTP_PROXY 'http_proxy', PROXY_USER_NAME 'proxy_user_name', PROXY_PASSWORD 'proxy_password')";
    let actual = create_secret(secret_name, &user_mapping_options).unwrap();

    assert_eq!(expected, actual);
}

#[test]
fn test_create_type_invalid() {
    let secret_name = "invalid_secret";
    let user_mapping_options = options_from(vec![(
        UserMappingOptions::Type.as_str().to_string(),
        "INVALID".to_string(),
    )]);

    let actual = create_secret(secret_name, &user_mapping_options).unwrap();
    // The statement is built as written; the engine rejects the unknown
    // secret type when the secret is created.
    assert_eq!(
        "CREATE OR REPLACE SECRET invalid_secret (TYPE INVALID)",
        actual
    );
}
