use paddle_api::entities::price::list::ListPricesResponse;
use paddle_api::entities::price::{Price, PriceInterval, PriceResponse, TaxMode};
use paddle_api::entities::product::list::ListProductsResponse;
use paddle_api::entities::product::{Product, ProductResponse, ProductTaxCategory};
use paddle_api::entities::{EntityBaseGettersSetters, EntityStatus, EntityType, Meta, Pagination};
use paddle_api::{ClientError, DecodeError, PaddleError};

const NOT_FOUND: &str = r#"{
  "error": {
    "type": "request_error",
    "code": "not_found",
    "detail": "Entity pro_x not found",
    "documentation_url": "https://developer.paddle.com/v1/errors/shared/not_found"
  },
  "meta": { "request_id": "9346bb7a" }
}"#;

const VALIDATION: &str = r#"{
  "error": {
    "type": "request_error",
    "code": "bad_request",
    "detail": "Invalid request",
    "documentation_url": "https://developer.paddle.com/v1/errors/shared/bad_request",
    "errors": [
      { "field": "name", "message": "must not be empty" },
      { "field": "tax_category", "message": "is required" }
    ]
  },
  "meta": { "request_id": "1" }
}"#;

const PRODUCT: &str = r#"{
  "data": {
    "id": "pro_01gsz4t5hdjse780zja8vvr7jg",
    "name": "AeroEdit Student",
    "tax_category": "standard",
    "type": "standard",
    "description": "Essential tools for student pilots.",
    "image_url": "https://paddle.s3.amazonaws.com/user/165798/bT1XUOJAQhOUxGs83cbk_pro.png",
    "custom_data": { "features": { "reports": true, "crm": false } },
    "status": "active",
    "import_meta": null,
    "created_at": "2023-02-23T12:43:46.605Z",
    "updated_at": "2024-04-05T15:53:44.687Z",
    "prices": [
      {
        "id": "pri_01gsz8x8sawmvhz1pv30nge1ke",
        "product_id": "pro_01gsz4t5hdjse780zja8vvr7jg",
        "type": "standard",
        "description": "Monthly",
        "name": "Monthly (per seat)",
        "billing_cycle": { "interval": "month", "frequency": 1 },
        "trial_period": { "interval": "day", "frequency": 10 },
        "tax_mode": "account_setting",
        "unit_price": { "amount": "3000", "currency_code": "USD" },
        "unit_price_overrides": [
          { "country_codes": ["IE", "FR"], "unit_price": { "amount": "2500", "currency_code": "EUR" } }
        ],
        "custom_data": null,
        "status": "active",
        "quantity": { "minimum": 10, "maximum": 999 },
        "import_meta": null,
        "created_at": "2023-02-23T13:55:22.538367Z",
        "updated_at": "2024-04-11T13:54:52.254748Z"
      }
    ]
  },
  "meta": { "request_id": "e7a4b6a5" }
}"#;

#[test]
fn not_found_surfaces_code_of_body() {
    match ProductResponse::from_response(404, NOT_FOUND.to_string()) {
        Err(ClientError::Api(e)) => {
            assert_eq!(e.error.code, "not_found");
            assert_eq!(e.error.e_type, "request_error");
            assert_eq!(e.error.detail, "Entity pro_x not found");
            assert_eq!(
                e.error.documentation_url,
                "https://developer.paddle.com/v1/errors/shared/not_found"
            );
            assert_eq!(e.error.errors, None);
            assert_eq!(e.meta.request_id, "9346bb7a");
            assert_eq!(e.meta.pagination, None);
        }
        other => panic!("unexpected: {:?}", other),
    }
}

#[test]
fn validation_errors_are_carried() {
    match PaddleError::handle_response(400, VALIDATION.to_string()) {
        Err(ClientError::Api(e)) => {
            assert_eq!(e.error.code, "bad_request");
            let errors = e.error.errors.unwrap();
            assert_eq!(errors.len(), 2);
            assert_eq!(errors[0].field, "name");
            assert_eq!(errors[0].message, "must not be empty");
            assert_eq!(errors[1].field, "tax_category");
            assert_eq!(errors[1].message, "is required");
        }
        other => panic!("unexpected: {:?}", other),
    }
}

#[test]
fn status_classes() {
    for status in [100u16, 200, 201, 204, 302, 399, 600] {
        assert_eq!(
            PaddleError::handle_response(status, "anything".to_string()).unwrap(),
            "anything"
        );
    }
    for status in [400u16, 404, 422, 499, 500, 503, 599] {
        assert!(matches!(
            PaddleError::handle_response(status, NOT_FOUND.to_string()),
            Err(ClientError::Api(_))
        ));
    }
}

#[test]
fn error_body_that_is_not_json() {
    assert!(matches!(
        PaddleError::handle_response(503, "Service Unavailable".to_string()),
        Err(ClientError::Decode(DecodeError::Syntax(_)))
    ));
}

#[test]
fn error_body_of_wrong_shape_names_the_member() {
    let cases = [
        (r#"{"meta": {"request_id": "1"}}"#, "error"),
        (r#"{"error": [], "meta": {"request_id": "1"}}"#, "error"),
        (r#"{"error": {"type": "t", "code": "c", "detail": "d", "documentation_url": "u"}}"#, "meta"),
        (
            r#"{"error": {"code": "c", "detail": "d", "documentation_url": "u"}, "meta": {"request_id": "1"}}"#,
            "type",
        ),
        (
            r#"{"error": {"type": "t", "code": 7, "detail": "d", "documentation_url": "u"}, "meta": {"request_id": "1"}}"#,
            "code",
        ),
        (
            r#"{"error": {"type": "t", "code": "c", "detail": "d", "documentation_url": "u", "errors": {}}, "meta": {"request_id": "1"}}"#,
            "errors",
        ),
        (
            r#"{"error": {"type": "t", "code": "c", "detail": "d", "documentation_url": "u", "errors": [{"field": "f"}]}, "meta": {"request_id": "1"}}"#,
            "message",
        ),
        (
            r#"{"error": {"type": "t", "code": "c", "detail": "d", "documentation_url": "u"}, "meta": {}}"#,
            "request_id",
        ),
    ];
    for (body, member) in cases {
        match PaddleError::handle_response(400, body.to_string()) {
            Err(ClientError::Decode(DecodeError::Shape(name))) => assert_eq!(name, member),
            other => panic!("unexpected for {}: {:?}", body, other),
        }
    }
}

#[test]
fn null_list_of_errors_counts_as_absent() {
    let body = r#"{"error": {"type": "t", "code": "c", "detail": "d", "documentation_url": "u", "errors": null}, "meta": {"request_id": "1"}}"#;
    match PaddleError::handle_response(400, body.to_string()) {
        Err(ClientError::Api(e)) => assert_eq!(e.error.errors, None),
        other => panic!("unexpected: {:?}", other),
    }
}

#[test]
fn product_response_is_decoded() {
    let response = ProductResponse::from_response(200, PRODUCT.to_string()).unwrap();
    assert_eq!(response.meta().request_id(), "e7a4b6a5");
    let product = response.data();
    assert_eq!(product.id(), Some("pro_01gsz4t5hdjse780zja8vvr7jg"));
    assert_eq!(product.name(), Some("AeroEdit Student"));
    assert_eq!(product.description(), Some("Essential tools for student pilots."));
    assert_eq!(product.p_type(), Some(&EntityType::Standard));
    assert_eq!(product.status(), Some(&EntityStatus::Active));
    assert_eq!(product.tax_category(), Some(&ProductTaxCategory::Standard));
    assert_eq!(
        product.image_url(),
        Some("https://paddle.s3.amazonaws.com/user/165798/bT1XUOJAQhOUxGs83cbk_pro.png")
    );
    let expected: serde_json::Value =
        serde_json::from_str(r#"{"features": {"reports": true, "crm": false}}"#).unwrap();
    assert_eq!(product.custom_data(), Some(&expected));
    assert_eq!(product.import_meta(), None);
    assert_eq!(product.created_at(), Some("2023-02-23T12:43:46.605Z"));
    assert_eq!(product.updated_at(), Some("2024-04-05T15:53:44.687Z"));

    let prices = product.prices().unwrap();
    assert_eq!(prices.len(), 1);
    let price = &prices[0];
    assert_eq!(price.id(), Some("pri_01gsz8x8sawmvhz1pv30nge1ke"));
    assert_eq!(price.product_id(), Some("pro_01gsz4t5hdjse780zja8vvr7jg"));
    assert_eq!(price.description(), Some("Monthly"));
    assert_eq!(price.name(), Some("Monthly (per seat)"));
    let cycle = price.billing_cycle().unwrap();
    assert_eq!(cycle.frequency(), 1);
    assert_eq!(cycle.interval(), "month");
    let trial = price.trial_period().unwrap();
    assert_eq!(trial.frequency(), 10);
    assert_eq!(trial.interval(), &PriceInterval::Day);
    assert_eq!(price.tax_mode(), Some(&TaxMode::AccountSetting));
    let unit = price.unit_price().unwrap();
    assert_eq!(unit.amount(), "3000");
    assert_eq!(unit.currency_code(), "USD");
    let overrides = price.unit_price_overrides().unwrap();
    assert_eq!(overrides.len(), 1);
    assert_eq!(overrides[0].country_codes(), ["IE".to_string(), "FR".to_string()]);
    assert_eq!(overrides[0].unit_price().amount(), "2500");
    assert_eq!(overrides[0].unit_price().currency_code(), "EUR");
    let quantity = price.quantity().unwrap();
    assert_eq!(quantity.minimum(), 10);
    assert_eq!(quantity.maximum(), 999);
    assert_eq!(price.custom_data(), None);
    assert!(price.product().is_none());

    let (product, meta) = response.into_parts();
    assert_eq!(meta.request_id, "e7a4b6a5");
    assert_eq!(product.name(), Some("AeroEdit Student"));
}

#[test]
fn test_product_t_3_response_without_prices() {
    let body = r#"{"data": {"id": "pro_1", "status": "archived"}, "meta": {"request_id": "r"}}"#;
    let response = ProductResponse::from_response(200, body.to_string()).unwrap();
    assert!(response.data().prices().is_none());
    assert_eq!(response.data().status(), Some(EntityStatus::Archived).as_ref());
    assert_eq!(response.data().name(), None);
}

#[test]
fn price_response_with_embedded_product() {
    let body = r#"{
        "data": {
            "id": "pri_1",
            "product_id": "pro_1",
            "product": { "id": "pro_1", "name": "Thing", "tax_category": "digital-goods" }
        },
        "meta": { "request_id": "r" }
    }"#;
    let response = PriceResponse::from_response(201, body.to_string()).unwrap();
    assert_eq!(response.meta().request_id(), "r");
    let product = response.data().product().unwrap();
    assert_eq!(product.name(), Some("Thing"));
    assert_eq!(product.tax_category(), Some(&ProductTaxCategory::DigitalGoods));
    assert!(product.prices().is_none());
}

#[test]
fn list_products_response() {
    let body = r#"{
        "data": [
            { "id": "pro_1", "name": "One", "status": "active" },
            { "id": "pro_2", "name": "Two", "status": "archived", "prices": [] }
        ],
        "meta": {
            "request_id": "r",
            "pagination": {
                "per_page": 50,
                "next": "https://sandbox-api.paddle.com/products?after=pro_2",
                "has_more": false,
                "estimated_total": 2
            }
        }
    }"#;
    let response = ListProductsResponse::from_response(200, body.to_string()).unwrap();
    assert_eq!(response.data().len(), 2);
    assert_eq!(response.data()[0].product().id(), Some("pro_1"));
    assert_eq!(response.data()[1].product().name(), Some("Two"));
    assert_eq!(response.data()[1].product().prices().map(|p| p.len()), Some(0));
    let first = response.data().first().unwrap();
    assert_eq!(first.product().status(), Some(EntityStatus::Active).as_ref());
    assert_eq!(
        response.meta().pagination,
        Some(Pagination {
            per_page: 50,
            next: "https://sandbox-api.paddle.com/products?after=pro_2".to_string(),
            has_more: false,
            estimated_total: 2,
        })
    );
    let (page, meta) = response.into_parts();
    assert_eq!(meta.request_id(), "r");
    let products: Vec<Product> = page.into_iter().map(|item| item.into_product()).collect();
    assert_eq!(products[1].id(), Some("pro_2"));
}

#[test]
fn empty_page_is_valid() {
    let body = r#"{"data": [], "meta": {"request_id": "r"}}"#;
    let response = ListProductsResponse::from_response(200, body.to_string()).unwrap();
    assert!(response.data().is_empty());
    assert_eq!(response.meta(), &Meta { request_id: "r".to_string(), pagination: None });
    let response = ListPricesResponse::from_response(200, body.to_string()).unwrap();
    assert!(response.data().is_empty());
}

#[test]
fn list_prices_response() {
    let body = r#"{
        "data": [ { "id": "pri_1", "tax_mode": "external" }, { "id": "pri_2" } ],
        "meta": { "request_id": "r" }
    }"#;
    let response = ListPricesResponse::from_response(200, body.to_string()).unwrap();
    assert_eq!(response.data().len(), 2);
    assert_eq!(response.data()[0].price().tax_mode(), Some(&TaxMode::External));
    assert_eq!(response.data()[1].price().id(), Some("pri_2"));
    let (page, _) = response.into_parts();
    let prices: Vec<Price> = page.into_iter().map(|item| item.into_price()).collect();
    assert_eq!(prices.len(), 2);
}

#[test]
fn response_of_wrong_shape_names_the_member() {
    let cases = [
        (r#"{"meta": {"request_id": "r"}}"#, "data"),
        (r#"{"data": [], "meta": {"request_id": "r"}}"#, "data"),
        (r#"{"data": {}}"#, "meta"),
        (r#"{"data": {"name": 1}, "meta": {"request_id": "r"}}"#, "name"),
        (r#"{"data": {"status": "deleted"}, "meta": {"request_id": "r"}}"#, "status"),
        (r#"{"data": {"type": "bespoke"}, "meta": {"request_id": "r"}}"#, "type"),
        (r#"{"data": {"tax_category": "food"}, "meta": {"request_id": "r"}}"#, "tax_category"),
        (r#"{"data": {"prices": {}}, "meta": {"request_id": "r"}}"#, "prices"),
        (r#"{"data": {"prices": [1]}, "meta": {"request_id": "r"}}"#, "prices"),
        (
            r#"{"data": {"prices": [{"quantity": {"minimum": 1}}]}, "meta": {"request_id": "r"}}"#,
            "maximum",
        ),
        (
            r#"{"data": {"prices": [{"quantity": {"minimum": 1, "maximum": 4294967296}}]}, "meta": {"request_id": "r"}}"#,
            "maximum",
        ),
        (
            r#"{"data": {"prices": [{"trial_period": {"frequency": 1, "interval": "hour"}}]}, "meta": {"request_id": "r"}}"#,
            "interval",
        ),
        (
            r#"{"data": {"prices": [{"billing_cycle": {"frequency": 1.5, "interval": "day"}}]}, "meta": {"request_id": "r"}}"#,
            "frequency",
        ),
        (
            r#"{"data": {"prices": [{"unit_price_overrides": [{"country_codes": ["DE", 1], "unit_price": {"amount": "1", "currency_code": "EUR"}}]}]}, "meta": {"request_id": "r"}}"#,
            "country_codes",
        ),
        (
            r#"{"data": {}, "meta": {"request_id": "r", "pagination": {"per_page": -1, "next": "", "has_more": true, "estimated_total": 1}}}"#,
            "per_page",
        ),
        (
            r#"{"data": {}, "meta": {"request_id": "r", "pagination": {"per_page": 1, "next": "", "has_more": "yes", "estimated_total": 1}}}"#,
            "has_more",
        ),
    ];
    for (body, member) in cases {
        match ProductResponse::from_response(200, body.to_string()) {
            Err(ClientError::Decode(DecodeError::Shape(name))) => assert_eq!(name, member),
            other => panic!("unexpected for {}: {:?}", body, other),
        }
    }
}

#[test]
fn list_item_that_is_no_object() {
    let body = r#"{"data": [{"id": "pro_1"}, 5], "meta": {"request_id": "r"}}"#;
    match ListProductsResponse::from_response(200, body.to_string()) {
        Err(ClientError::Decode(DecodeError::Shape(name))) => assert_eq!(name, "data"),
        other => panic!("unexpected: {:?}", other),
    }
}

#[test]
fn response_body_that_is_not_json() {
    assert!(matches!(
        ProductResponse::from_response(200, "".to_string()),
        Err(ClientError::Decode(DecodeError::Syntax(_)))
    ));
    assert!(matches!(
        ListPricesResponse::from_response(200, "{".to_string()),
        Err(ClientError::Decode(DecodeError::Syntax(_)))
    ));
}

#[test]
fn error_status_wins_over_readable_body() {
    assert!(matches!(
        ProductResponse::from_response(500, PRODUCT.to_string()),
        Err(ClientError::Decode(DecodeError::Shape(_)))
    ));
}

#[test]
fn what_is_read_can_be_written_again() {
    let response = ProductResponse::from_response(200, PRODUCT.to_string()).unwrap();
    let written = response.data().to_json();
    let again = Product::from_json(&written).unwrap();
    assert_eq!(again.to_json(), written);
    let source: serde_json::Value = serde_json::from_str(PRODUCT).unwrap();
    let data = source.get("data").unwrap();
    let prices = written.get("prices").unwrap().as_array().unwrap();
    assert_eq!(prices.len(), 1);
    assert_eq!(prices[0].get("quantity"), data["prices"][0].get("quantity"));
    assert_eq!(prices[0].get("unit_price_overrides"), data["prices"][0].get("unit_price_overrides"));
    assert_eq!(written.get("custom_data"), data.get("custom_data"));
    assert_eq!(written.get("import_meta"), None);
    assert_eq!(written.get("name"), data.get("name"));
}

#[test]
fn test_authentication_t_0() {
    let client = paddle_api::Client::new("https://sandbox-api.paddle.com", "token").unwrap();
    let request = client.test_authentication().unwrap();
    assert_eq!(request.url, "https://sandbox-api.paddle.com/event-types");
    let body = r#"{"data": [{"name": "transaction.billed", "group": "Transaction"}],
                   "meta": {"request_id": "r"}}"#;
    paddle_api::Client::authentication_outcome(200, body.to_string()).unwrap();
}

#[test]
#[should_panic]
fn test_authentication_f_0() {
    let client = paddle_api::Client::new("https://sandbox-api.paddle.com", "invalid").unwrap();
    client.test_authentication().unwrap();
    let body = r#"{"error": {"type": "request_error", "code": "forbidden",
                   "detail": "You aren't permitted to perform this request.",
                   "documentation_url": "https://developer.paddle.com/v1/errors/shared/forbidden"},
                   "meta": {"request_id": "r"}}"#;
    paddle_api::Client::authentication_outcome(403, body.to_string()).unwrap();
}

#[test]
#[should_panic]
fn test_get_product_t_1() {
    let client = paddle_api::Client::new("https://sandbox-api.paddle.com", "token").unwrap();
    client.get_product("invalid_product_id", None).unwrap();
    let _ = ProductResponse::from_response(404, NOT_FOUND.to_string()).unwrap();
}

#[test]
#[should_panic]
fn test_get_price_t_1() {
    let client = paddle_api::Client::new("https://sandbox-api.paddle.com", "token").unwrap();
    client.get_price("invalprice_id_price_id", None).unwrap();
    let _ = PriceResponse::from_response(404, NOT_FOUND.to_string()).unwrap();
}
