use org::error::OrgError;
use org::microsoft::{login_uri, token_request_form, upload_records, TOKEN_URI};
use org::pages::index_page;
use org::redis_data::{token_lifetime, ACCESS_TOKEN_KEY, REDIS_URL};
use org::secrets::{redirect_uri, scope};

#[test]
fn error_messages() {
    assert_eq!(OrgError::BadTempPath.message(), "File could not be found at the temp location");
    assert_eq!(OrgError::MissingName.message(), "Invalid name");
    assert_eq!(OrgError::Io("disk full".to_string()).message(), "IO error: disk full");
    assert_eq!(OrgError::Reqwest("timed out".to_string()).message(), "IO error: timed out");
    assert_eq!(
        OrgError::MicrosoftDrive("quota".to_string()).message(),
        "Microsoft Drive error: quota"
    );
    assert_eq!(OrgError::MicrosoftDrive404.message(), "Microsoft Drive error: 404");
}

#[test]
fn index_page_depends_on_the_token() {
    assert_eq!(index_page(true), "static/index.html");
    assert_eq!(index_page(false), "static/login.html");
}

#[test]
fn percent_encoding_of_settings() {
    assert_eq!(redirect_uri("a b/c"), "a%20b%2Fc");
    assert_eq!(scope("files.readwrite offline_access"), "files.readwrite%20offline_access");
}

#[test]
fn login_uri_appends_the_query_in_order() {
    let uri = login_uri("app-id", "http%3A%2F%2Fhost", "files.read").unwrap();
    assert_eq!(
        uri,
        "https://login.microsoftonline.com/consumers/oauth2/v2.0/authorize?client_id=app-id&response_type=code&redirect_uri=http%253A%252F%252Fhost&response_mode=query&scope=files.read"
    );
}

#[test]
fn token_request_form_lists_the_fields() {
    let form = token_request_form("id", "sc", "the-code", "back", "secret");
    let expected: Vec<(String, String)> = vec![
        ("client_id".to_string(), "id".to_string()),
        ("scope".to_string(), "sc".to_string()),
        ("code".to_string(), "the-code".to_string()),
        ("redirect_uri".to_string(), "back".to_string()),
        ("grant_type".to_string(), "authorization_code".to_string()),
        ("client_secret".to_string(), "secret".to_string()),
    ];
    assert_eq!(form, expected);
    assert_eq!(TOKEN_URI, "https://login.microsoftonline.com/consumers/oauth2/v2.0/token");
}

#[test]
fn token_lifetime_converts_seconds() {
    assert_eq!(token_lifetime(3600), 3600);
    assert_eq!(token_lifetime(-1), usize::MAX);
}

#[test]
fn store_settings() {
    assert_eq!(REDIS_URL, "redis://127.0.0.1/");
    assert_eq!(ACCESS_TOKEN_KEY, "access_token");
}

#[test]
fn upload_records_of_nothing_writes_nothing() {
    assert!(upload_records(&"session".to_string(), &Vec::new()).is_empty());
}
