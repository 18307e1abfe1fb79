use bryteschemes_api::config::{
    parse_environment, Config, Environment, DEFAULT_DEV_URL, DEFAULT_LOCAL_URL, DEFAULT_MAIN_URL,
    DEFAULT_TEST_URL,
};
use bryteschemes_api::handler::{
    account_handler, account_schema_handler, classify_error, classify_lowercase, discriminator,
    discriminator_offline, fetch_reply, health_handler, FetchError, Lookup, Payload,
};
use bryteschemes_api::reply::Reply;
use bryteschemes_api::router::{handle, route, Action, Route};
use bryteschemes_api::swagger::{
    asset_reply, serve_asset, serve_swagger, swagger_lookup_path, Asset, API_DOC_PATH,
};
use bryteschemes_api::text::{split_at_slashes, str_contains, str_equals};

fn json(body: &[u8]) -> Payload {
    Payload { content_type: "application/json".to_string(), body: body.to_vec() }
}

fn configured() -> Config {
    Config::build(
        Some("https://dev.example".to_string()),
        Some("https://test.example".to_string()),
        Some("https://main.example".to_string()),
        Some("http://local.example:8899".to_string()),
    )
}

#[test]
fn build_takes_defaults_where_unset() {
    let config = Config::build(None, None, None, None);
    assert_eq!(config.dev_url, DEFAULT_DEV_URL);
    assert_eq!(config.test_url, DEFAULT_TEST_URL);
    assert_eq!(config.main_url, DEFAULT_MAIN_URL);
    assert_eq!(config.local_url, DEFAULT_LOCAL_URL);
    assert_eq!(config.dev_url, "https://api.devnet.solana.com");
    assert_eq!(config.local_url, "http://localhost:8000");
}

#[test]
fn build_prefers_overrides() {
    let config = Config::build(Some("https://a".to_string()), None, Some("https://m".to_string()), None);
    assert_eq!(config.dev_url, "https://a");
    assert_eq!(config.test_url, "https://api.testnet.solana.com");
    assert_eq!(config.main_url, "https://m");
    assert_eq!(config.local_url, "http://localhost:8000");
}

#[test]
fn resolve_known_names() {
    let config = configured();
    assert_eq!(config.rpc_url("Dev"), "https://dev.example");
    assert_eq!(config.rpc_url("Test"), "https://test.example");
    assert_eq!(config.rpc_url("Main"), "https://main.example");
    assert_eq!(config.rpc_url("Local"), "http://local.example:8899");
}

#[test]
fn resolve_falls_back_to_local() {
    let config = configured();
    assert_eq!(config.rpc_url(""), "http://local.example:8899");
    assert_eq!(config.rpc_url("Bogus"), "http://local.example:8899");
    assert_eq!(config.rpc_url("dev"), "http://local.example:8899");
    assert_eq!(config.rpc_url("Dev "), "http://local.example:8899");
    assert_eq!(config.rpc_url("Mainnet"), "http://local.example:8899");
}

#[test]
fn parse_environment_names() {
    assert_eq!(parse_environment("Dev"), Environment::Dev);
    assert_eq!(parse_environment("Test"), Environment::Test);
    assert_eq!(parse_environment("Main"), Environment::Main);
    assert_eq!(parse_environment("Local"), Environment::Local);
    assert_eq!(parse_environment("TEST"), Environment::Local);
}

#[test]
fn string_equality() {
    assert!(str_equals("abc", "abc"));
    assert!(str_equals("", ""));
    assert!(!str_equals("abc", "abd"));
    assert!(!str_equals("ab", "abc"));
}

#[test]
fn split_keeps_empty_pieces() {
    assert_eq!(split_at_slashes(""), vec![String::new()]);
    assert_eq!(split_at_slashes("a/bc//d/"), vec!["a", "bc", "", "d", ""]);
    assert_eq!(split_at_slashes("health"), vec!["health"]);
}

#[test]
fn health_is_ok_and_empty() {
    assert_eq!(health_handler(), Reply::Empty { status: 200 });
    assert_eq!(health_handler().status_code(), 200);
    assert_eq!(handle(&configured(), "/health"), Action::Respond(Reply::Empty { status: 200 }));
}

#[test]
fn successful_payload_is_forwarded() {
    let payload = b"{\"lamports\":100}".to_vec();
    let reply = fetch_reply(Ok(json(&payload)));
    assert_eq!(reply.status_code(), 200);
    assert_eq!(
        reply,
        Reply::Content { content_type: "application/json".to_string(), body: payload }
    );
    let raw = Payload { content_type: "text/plain".to_string(), body: b"abc".to_vec() };
    assert_eq!(
        fetch_reply(Ok(raw)),
        Reply::Content { content_type: "text/plain".to_string(), body: b"abc".to_vec() }
    );
}

#[test]
fn not_found_is_404() {
    let reply = fetch_reply(Err(FetchError::NotFound));
    assert_eq!(reply.status_code(), 404);
    assert_eq!(reply, Reply::Text { status: 404, text: "not found".to_string() });
}

#[test]
fn other_failures_have_their_status() {
    assert_eq!(fetch_reply(Err(FetchError::Unavailable)).status_code(), 502);
    assert_eq!(fetch_reply(Err(FetchError::TimedOut)).status_code(), 504);
    assert_eq!(fetch_reply(Err(FetchError::InvalidInput)).status_code(), 400);
}

#[test]
fn handlers_build_lookups() {
    let config = configured();
    assert_eq!(
        account_handler(&config, "K".to_string(), "P".to_string(), "Test".to_string()),
        Lookup::AccountData {
            account_key: "K".to_string(),
            program_id: "P".to_string(),
            rpc_url: "https://test.example".to_string(),
        }
    );
    assert_eq!(
        account_schema_handler(&config, "K".to_string(), "P".to_string(), "Main".to_string()),
        Lookup::AccountSchema {
            account_key: "K".to_string(),
            program_id: "P".to_string(),
            with_start_index: true,
            rpc_url: "https://main.example".to_string(),
        }
    );
    assert_eq!(
        discriminator(&config, "K".to_string(), "Nope".to_string()),
        Lookup::Discriminator {
            account_key: "K".to_string(),
            rpc_url: "http://local.example:8899".to_string(),
        }
    );
}

#[test]
fn offline_discriminator_contacts_no_endpoint() {
    let expected = Lookup::DiscriminatorOffline {
        account_name: "Vault".to_string(),
        account_type: "account".to_string(),
    };
    assert_eq!(discriminator_offline("Vault".to_string(), "account".to_string()), expected);
    let a = handle(&configured(), "/discriminator-offline/Vault/account");
    let b = handle(&Config::build(None, None, None, None), "/discriminator-offline/Vault/account");
    assert_eq!(a, Action::Fetch(expected));
    assert_eq!(a, b);
}

#[test]
fn account_request_on_dev() {
    let config = configured();
    let action = handle(&config, "/account/ABCDEF123/ProgramXYZ/Dev");
    assert_eq!(
        action,
        Action::Fetch(Lookup::AccountData {
            account_key: "ABCDEF123".to_string(),
            program_id: "ProgramXYZ".to_string(),
            rpc_url: "https://dev.example".to_string(),
        })
    );
    let reply = fetch_reply(Ok(json(b"{\"lamports\":100}")));
    assert_eq!(reply.status_code(), 200);
    assert_eq!(
        reply,
        Reply::Content {
            content_type: "application/json".to_string(),
            body: b"{\"lamports\":100}".to_vec(),
        }
    );
}

#[test]
fn account_request_on_unknown_environment_uses_local() {
    let config = configured();
    let action = handle(&config, "/account/ABCDEF123/ProgramXYZ/Bogus");
    assert_eq!(
        action,
        Action::Fetch(Lookup::AccountData {
            account_key: "ABCDEF123".to_string(),
            program_id: "ProgramXYZ".to_string(),
            rpc_url: "http://local.example:8899".to_string(),
        })
    );
}

#[test]
fn routes_match_their_patterns() {
    assert_eq!(route("/health"), Route::Health);
    assert_eq!(route("/api-doc.json"), Route::ApiDoc);
    assert_eq!(route("/swagger-ui"), Route::SwaggerUi);
    assert_eq!(route("/swagger-ui/index.css"), Route::SwaggerUi);
    assert_eq!(
        route("/account-schema/K/P/Dev"),
        Route::AccountSchema {
            account_key: "K".to_string(),
            program_id: "P".to_string(),
            rpc_env: "Dev".to_string(),
        }
    );
    assert_eq!(
        route("/discriminator/K/Main"),
        Route::Discriminator { account_key: "K".to_string(), rpc_env: "Main".to_string() }
    );
    assert_eq!(route("/account/K//Dev"), Route::Unknown);
    assert_eq!(route("/account/K/P"), Route::Unknown);
    assert_eq!(route("/nothing"), Route::Unknown);
    assert_eq!(route("/"), Route::Unknown);
}

#[test]
fn unknown_path_is_404() {
    assert_eq!(handle(&configured(), "/nothing/here"), Action::Respond(Reply::Empty { status: 404 }));
    assert_eq!(handle(&configured(), "/api-doc.json"), Action::ServeApiDoc);
}

#[test]
fn bare_ui_path_redirects() {
    let reply = serve_swagger("/swagger-ui", "", API_DOC_PATH);
    assert_eq!(reply, Reply::Redirect { location: "/swagger-ui/".to_string() });
    assert_eq!(reply.status_code(), 302);
    assert_eq!(
        handle(&configured(), "/swagger-ui"),
        Action::Respond(Reply::Redirect { location: "/swagger-ui/".to_string() })
    );
}

#[test]
fn unknown_asset_is_404() {
    let reply = serve_swagger("/swagger-ui/no-such-file.txt", "no-such-file.txt", API_DOC_PATH);
    assert_eq!(reply, Reply::Empty { status: 404 });
    assert_eq!(serve_asset("missing/asset.js", API_DOC_PATH), Reply::Empty { status: 404 });
    assert_eq!(
        handle(&configured(), "/swagger-ui/missing/asset.js"),
        Action::ServeAsset("missing/asset.js".to_string())
    );
}

#[test]
fn asset_lookup_results() {
    let asset = Asset { content_type: "text/css".to_string(), bytes: b"body{}".to_vec() };
    assert_eq!(
        asset_reply(Ok(Some(asset))),
        Reply::Content { content_type: "text/css".to_string(), body: b"body{}".to_vec() }
    );
    assert_eq!(asset_reply(Ok(None)), Reply::Empty { status: 404 });
    assert_eq!(
        asset_reply(Err("broken".to_string())),
        Reply::Text { status: 500, text: "broken".to_string() }
    );
}

#[test]
fn ui_lookup_uses_the_tail() {
    assert_eq!(swagger_lookup_path("/swagger-ui", ""), None);
    assert_eq!(swagger_lookup_path("/swagger-ui/", ""), Some(String::new()));
    assert_eq!(swagger_lookup_path("/swagger-ui/index.css", "index.css"), Some("index.css".to_string()));
    assert_eq!(handle(&configured(), "/swagger-ui/"), Action::ServeAsset(String::new()));
    assert_eq!(
        handle(&configured(), "/swagger-ui/a/b.js"),
        Action::ServeAsset("a/b.js".to_string())
    );
}

#[test]
fn substring_search() {
    assert!(str_contains("account not found", "not found"));
    assert!(str_contains("abc", ""));
    assert!(str_contains("abc", "abc"));
    assert!(!str_contains("ab", "abc"));
    assert!(!str_contains("not-found", "not found"));
}

#[test]
fn lowercase_messages_are_classified() {
    assert_eq!(classify_lowercase("account not found"), FetchError::NotFound);
    assert_eq!(classify_lowercase("error: accountnotfound"), FetchError::NotFound);
    assert_eq!(classify_lowercase("request timed out"), FetchError::TimedOut);
    assert_eq!(classify_lowercase("timeout after 30s"), FetchError::TimedOut);
    assert_eq!(classify_lowercase("invalid public key"), FetchError::InvalidInput);
    assert_eq!(classify_lowercase("connection refused"), FetchError::Unavailable);
    assert_eq!(classify_lowercase("Not Found"), FetchError::Unavailable);
}

#[test]
fn messages_are_classified_whatever_their_case() {
    assert_eq!(classify_error("Account Not Found"), FetchError::NotFound);
    assert_eq!(classify_error("AccountNotFound: pubkey=abc"), FetchError::NotFound);
    assert_eq!(classify_error("Request TIMED OUT"), FetchError::TimedOut);
    assert_eq!(classify_error("Invalid param"), FetchError::InvalidInput);
    assert_eq!(classify_error("RPC error -32005"), FetchError::Unavailable);
}
