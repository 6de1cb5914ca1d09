use paddle_api::entities::product::list::ListProductsParams;
use paddle_api::entities::product::ProductTaxCategory;
use paddle_api::entities::{BaseListParamsGettersSetters, EntityStatus, EntityType};
use paddle_api::{AuthFailure, Client, ClientError, Method};

#[test]
fn new_t_0() {
    let client = Client::new("https://sandbox-api.paddle.com", "token").unwrap();
    assert_eq!(client.url(), "https://sandbox-api.paddle.com/");
    assert_eq!(client.auth(), "token");
    assert_eq!(client.paddle_version(), None);
}

#[test]
fn new_rejects_malformed_address() {
    let r = Client::new(r###"https:::\/sandbox-api.paddle.com"###, "token");
    assert!(matches!(r, Err(ClientError::Url(_))));
}

#[test]
fn default_headers_without_version() {
    let client = Client::new("https://sandbox-api.paddle.com", "abc").unwrap();
    let headers = client.default_headers().unwrap();
    assert_eq!(
        headers,
        vec![
            ("Content-Type".to_string(), "application/json".to_string()),
            ("Authorization".to_string(), "Bearer abc".to_string()),
        ]
    );
}

#[test]
fn default_headers_with_version() {
    let mut client = Client::new("https://sandbox-api.paddle.com", "abc").unwrap();
    client.set_paddle_version("1");
    let headers = client.default_headers().unwrap();
    assert_eq!(headers.len(), 3);
    assert_eq!(headers[2], ("Paddle-Version".to_string(), "1".to_string()));
}

#[test]
fn token_with_line_break_is_refused() {
    let client = Client::new("https://sandbox-api.paddle.com", "abc\ndef").unwrap();
    match client.default_headers() {
        Err(ClientError::Header(name)) => assert_eq!(name, "Authorization"),
        other => panic!("unexpected: {:?}", other),
    }
    match client.test_authentication() {
        Err(ClientError::Header(name)) => assert_eq!(name, "Authorization"),
        other => panic!("unexpected: {:?}", other),
    }
}

#[test]
fn version_with_control_character_is_refused() {
    let mut client = Client::new("https://sandbox-api.paddle.com", "abc").unwrap();
    client.set_paddle_version("1\u{7f}");
    match client.default_headers() {
        Err(ClientError::Header(name)) => assert_eq!(name, "Paddle-Version"),
        other => panic!("unexpected: {:?}", other),
    }
}

#[test]
fn token_with_tab_and_non_ascii_is_accepted() {
    let client = Client::new("https://sandbox-api.paddle.com", "a\tb\u{e9}").unwrap();
    assert!(client.default_headers().is_ok());
}

#[test]
fn authentication_probe_request() {
    let client = Client::new("https://sandbox-api.paddle.com", "abc").unwrap();
    let request = client.test_authentication().unwrap();
    assert_eq!(request.method, Method::Get);
    assert_eq!(request.url, "https://sandbox-api.paddle.com/event-types");
    assert_eq!(request.body, None);
    assert_eq!(request.headers.len(), 2);
}

#[test]
fn probe_with_empty_data_fails() {
    let body = r#"{"data": [], "meta": {"request_id": "r"}}"#.to_string();
    match Client::include_data_meta(body) {
        Err(ClientError::AuthenticationFailed(failure)) => {
            assert_eq!(failure, AuthFailure::DataEmpty);
            assert_eq!(failure.as_str(), "Data is empty");
        }
        other => panic!("unexpected: {:?}", other),
    }
}

#[test]
fn probe_with_data_and_meta_succeeds() {
    let body = r#"{"data": [{"x":1}], "meta": {"request_id": "r"}}"#.to_string();
    assert!(Client::include_data_meta(body).is_ok());
}

#[test]
fn probe_failures_are_distinguished() {
    let cases = [
        (r#"{"meta": {}}"#, AuthFailure::DataMissing, "Data is missing"),
        (
            r#"{"data": {"x": 1}, "meta": {}}"#,
            AuthFailure::DataNotCollection,
            "Data is not a collection",
        ),
        (r#"{"data": null, "meta": {}}"#, AuthFailure::DataNotCollection, "Data is not a collection"),
        (r#"{"data": [], "meta": {}}"#, AuthFailure::DataEmpty, "Data is empty"),
        (r#"{"data": []}"#, AuthFailure::DataEmpty, "Data is empty"),
        (r#"{"data": [1]}"#, AuthFailure::MetaMissing, "Meta is missing"),
        (r#"[1, 2]"#, AuthFailure::DataMissing, "Data is missing"),
    ];
    for (body, expected, reason) in cases {
        match Client::include_data_meta(body.to_string()) {
            Err(ClientError::AuthenticationFailed(failure)) => {
                assert_eq!(failure, expected);
                assert_eq!(failure.as_str(), reason);
            }
            other => panic!("unexpected for {}: {:?}", body, other),
        }
    }
}

#[test]
fn probe_with_null_meta_counts_as_present() {
    assert!(Client::include_data_meta(r#"{"data": [1], "meta": null}"#.to_string()).is_ok());
}

#[test]
fn probe_body_that_is_not_json() {
    match Client::include_data_meta("<html>".to_string()) {
        Err(ClientError::Decode(paddle_api::DecodeError::Syntax(_))) => {}
        other => panic!("unexpected: {:?}", other),
    }
}

#[test]
fn probe_outcome_with_error_status() {
    let body = r#"{"error": {"type": "request_error", "code": "forbidden", "detail": "no",
        "documentation_url": "https://developer.paddle.com/errors/shared/forbidden"},
        "meta": {"request_id": "abc"}}"#;
    match Client::authentication_outcome(403, body.to_string()) {
        Err(ClientError::Api(e)) => {
            assert_eq!(e.error.code, "forbidden");
            assert_eq!(e.error.e_type, "request_error");
            assert_eq!(e.error.errors, None);
            assert_eq!(e.meta.request_id(), "abc");
        }
        other => panic!("unexpected: {:?}", other),
    }
    assert!(Client::authentication_outcome(200, r#"{"data": [1], "meta": {}}"#.to_string()).is_ok());
}

#[test]
fn nothing_set_gives_empty_query() {
    let params = ListProductsParams::default();
    assert!(params.query_pairs().is_empty());
    assert_eq!(params.to_query(), "");
    assert_eq!(ListProductsParams::new(), ListProductsParams::default());
}

#[test]
fn multi_valued_parameters_are_comma_joined_in_order() {
    let params = ListProductsParams::default().set_id(vec![
        "c".to_string(),
        "a".to_string(),
        "b".to_string(),
    ]);
    assert_eq!(
        params.query_pairs(),
        vec![("id".to_string(), "c,a,b".to_string())]
    );
    assert_eq!(params.to_query(), "id=c%2Ca%2Cb");
}

#[test]
fn all_parameters_in_order() {
    let params = ListProductsParams::default()
        .set_tax_category(vec![
            ProductTaxCategory::DigitalGoods,
            ProductTaxCategory::SaaS,
        ])
        .set_p_type(EntityType::Custom)
        .set_status(vec![EntityStatus::Archived, EntityStatus::Active])
        .set_per_page(-7)
        .set_order_by("status[ASC]")
        .set_include(vec!["prices".to_string(), "X".to_string()])
        .set_id(vec!["pro_1".to_string()])
        .set_after("pro 0&1");
    let expected: Vec<(String, String)> = [
        ("after", "pro 0&1"),
        ("id", "pro_1"),
        ("include", "prices,X"),
        ("order_by", "status[ASC]"),
        ("per_page", "-7"),
        ("status", "archived,active"),
        ("tax_category", "digital-goods,saas"),
        ("type", "custom"),
    ]
    .iter()
    .map(|(k, v)| (k.to_string(), v.to_string()))
    .collect();
    assert_eq!(params.query_pairs(), expected);
    assert_eq!(
        params.to_query(),
        "after=pro+0%261&id=pro_1&include=prices%2CX&order_by=status%5BASC%5D&per_page=-7\
         &status=archived%2Cactive&tax_category=digital-goods%2Csaas&type=custom"
    );
}

#[test]
fn empty_list_is_sent_as_empty_value() {
    let params = ListProductsParams::default().set_id(vec![]);
    assert_eq!(params.query_pairs(), vec![("id".to_string(), String::new())]);
    assert_eq!(params.to_query(), "id=");
}
