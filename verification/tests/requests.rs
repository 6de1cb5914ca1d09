use paddle_api::entities::price::list::ListPricesParams;
use paddle_api::entities::price::{
    BillingCycle, Price, PriceInterval, Quantity, TaxMode, TrialPeriod, UnitPrice,
    UnitPriceOverride,
};
use paddle_api::entities::product::list::ListProductsParams;
use paddle_api::entities::product::{Product, ProductTaxCategory};
use paddle_api::entities::{
    BaseListParamsGettersSetters, EntityBaseGettersSetters, EntityStatus, EntityType,
};
use paddle_api::{Client, ClientError, Method};

const BASE: &str = "https://sandbox-api.paddle.com";

fn client() -> Client {
    Client::new(BASE, "secret").unwrap()
}

fn standard_headers() -> Vec<(String, String)> {
    vec![
        ("Content-Type".to_string(), "application/json".to_string()),
        ("Authorization".to_string(), "Bearer secret".to_string()),
    ]
}

#[test]
#[should_panic]
fn new_f_0() {
    let mut client = Client::new(r###"https:::\/sandbox-api.paddle.com"###, "secret").unwrap();
    client.set_paddle_version("1");
}

#[test]
fn test_auth_t_0() {
    let request = client().test_authentication().unwrap();
    assert_eq!(request.method, Method::Get);
    assert_eq!(request.url, "https://sandbox-api.paddle.com/event-types");
    assert_eq!(request.headers, standard_headers());
    assert_eq!(request.body, None);
}

#[test]
fn test_get_product_t_0() {
    let request = client().get_product("pro_01j7k6xbf7jctjpnx0pz20th7s", None).unwrap();
    assert_eq!(request.method, Method::Get);
    assert_eq!(
        request.url,
        "https://sandbox-api.paddle.com/products/pro_01j7k6xbf7jctjpnx0pz20th7s"
    );
    assert_eq!(request.headers, standard_headers());
    assert_eq!(request.body, None);
}

#[test]
fn test_product_t_2() {
    let request = client()
        .get_product(
            "pro_1",
            Some(vec!["prices".to_string(), "X".to_string()]),
        )
        .unwrap();
    assert_eq!(
        request.url,
        "https://sandbox-api.paddle.com/products/pro_1?include=prices%2CX"
    );
}

#[test]
fn get_with_empty_list_of_relations() {
    let request = client().get_product("pro_1", Some(vec![])).unwrap();
    assert_eq!(request.url, "https://sandbox-api.paddle.com/products/pro_1?include=");
}

#[test]
fn test_get_price_t_0() {
    let request = client().get_price("pri_1", None).unwrap();
    assert_eq!(request.method, Method::Get);
    assert_eq!(request.url, "https://sandbox-api.paddle.com/prices/pri_1");
    let request = client()
        .get_price("pri_1", Some(vec!["product".to_string()]))
        .unwrap();
    assert_eq!(
        request.url,
        "https://sandbox-api.paddle.com/prices/pri_1?include=product"
    );
}

#[test]
fn test_get_list_products_t_0() {
    let request = client()
        .get_list_products(ListProductsParams::default())
        .unwrap();
    assert_eq!(request.method, Method::Get);
    assert_eq!(request.url, "https://sandbox-api.paddle.com/products");
    assert_eq!(request.body, None);
}

#[test]
fn test_product_t_0() {
    let request = client()
        .get_list_products(
            ListProductsParams::default().set_tax_category(vec![ProductTaxCategory::Standard]),
        )
        .unwrap();
    assert_eq!(
        request.url,
        "https://sandbox-api.paddle.com/products?tax_category=standard"
    );
}

#[test]
fn test_product_t_1() {
    let next = "https://sandbox-api.paddle.com/products?after=pro_01jcgjpcbfpr4wa8f6zmxwqbng";
    let after = next.split("after=").last().unwrap();
    let request = client()
        .get_list_products(ListProductsParams::default().set_after(after))
        .unwrap();
    assert_eq!(request.url, next);
}

#[test]
fn test_product_t_3() {
    let request = client()
        .get_list_products(
            ListProductsParams::default()
                .set_id(vec![
                    "pro_01j7k6xbf7jctjpnx0pz20th7s".to_string(),
                    "pro_01jcgjpcbfpr4wa8f6zmxwqbng".to_string(),
                ])
                .set_include(vec!["prices".to_string(), "X".to_string()]),
        )
        .unwrap();
    assert_eq!(
        request.url,
        "https://sandbox-api.paddle.com/products?id=pro_01j7k6xbf7jctjpnx0pz20th7s%2Cpro_01jcgjpcbfpr4wa8f6zmxwqbng&include=prices%2CX"
    );
}

#[test]
fn t_4() {
    let request = client()
        .get_list_products(
            ListProductsParams::default()
                .set_status(vec![EntityStatus::Archived, EntityStatus::Active])
                .set_order_by("status[ASC]"),
        )
        .unwrap();
    assert_eq!(
        request.url,
        "https://sandbox-api.paddle.com/products?order_by=status%5BASC%5D&status=archived%2Cactive"
    );
    let request = client()
        .get_list_products(
            ListProductsParams::default()
                .set_status(vec![EntityStatus::Archived, EntityStatus::Active])
                .set_order_by("status[DESC]"),
        )
        .unwrap();
    assert_eq!(
        request.url,
        "https://sandbox-api.paddle.com/products?order_by=status%5BDESC%5D&status=archived%2Cactive"
    );
}

#[test]
fn t_5() {
    let request = client()
        .get_list_products(ListProductsParams::default().set_p_type(EntityType::Custom))
        .unwrap();
    assert_eq!(request.url, "https://sandbox-api.paddle.com/products?type=custom");
}

#[test]
fn t_6() {
    let request = client()
        .get_list_products(ListProductsParams::default().set_per_page(1))
        .unwrap();
    assert_eq!(request.url, "https://sandbox-api.paddle.com/products?per_page=1");
}

#[test]
fn test_get_list_prices_t_0() {
    let request = client()
        .get_list_prices(ListPricesParams::default())
        .unwrap();
    assert_eq!(request.method, Method::Get);
    assert_eq!(request.url, "https://sandbox-api.paddle.com/prices");
}

#[test]
fn list_prices_with_all_parameters() {
    let params = ListPricesParams::new()
        .set_after("pri_0")
        .set_id(vec!["a".to_string(), "b".to_string(), "c".to_string()])
        .set_include(vec!["product".to_string()])
        .set_order_by("id[DESC]")
        .set_per_page(200)
        .set_status(vec![EntityStatus::Active])
        .set_recurring(true)
        .set_p_type(EntityType::Standard);
    assert_eq!(params.recurring(), Some(true));
    assert_eq!(
        params.to_query(),
        "after=pri_0&id=a%2Cb%2Cc&include=product&order_by=id%5BDESC%5D&per_page=200\
         &status=active&recurring=true&type=standard"
    );
    let request = client().get_list_prices(params).unwrap();
    assert_eq!(
        request.url,
        "https://sandbox-api.paddle.com/prices?after=pri_0&id=a%2Cb%2Cc&include=product\
         &order_by=id%5BDESC%5D&per_page=200&status=active&recurring=true&type=standard"
    );
    assert_eq!(
        ListPricesParams::new().set_recurring(false).to_query(),
        "recurring=false"
    );
}

#[test]
fn test_product_test_update_product_t_0() {
    let request = client()
        .update_product("pro_1", Product::default().set_status(EntityStatus::Active))
        .unwrap();
    assert_eq!(request.method, Method::Patch);
    assert_eq!(request.url, "https://sandbox-api.paddle.com/products/pro_1");
    assert_eq!(request.headers, standard_headers());
    assert_eq!(request.body, Some(r#"{"status":"active"}"#.to_string()));

    let request = client()
        .update_product("pro_1", Product::default().set_status(EntityStatus::Archived))
        .unwrap();
    assert_eq!(request.body, Some(r#"{"status":"archived"}"#.to_string()));
}

#[test]
fn update_with_only_status_has_one_member() {
    let request = client()
        .update_product("pro_1", Product::default().set_status(EntityStatus::Active))
        .unwrap();
    let body: serde_json::Value = serde_json::from_str(&request.body.unwrap()).unwrap();
    let members = body.as_object().unwrap();
    assert_eq!(members.len(), 1);
    assert_eq!(members.get("status").and_then(|v| v.as_str()), Some("active"));
}

#[test]
fn test_product_test_create_product_t_0() {
    let request = client()
        .create_product(Product::default().set_tax_category(ProductTaxCategory::Standard))
        .unwrap();
    assert_eq!(request.method, Method::Post);
    assert_eq!(request.url, "https://sandbox-api.paddle.com/products");
    assert_eq!(request.body, Some(r#"{"tax_category":"standard"}"#.to_string()));
}

#[test]
fn unit_tests_test_create_product_t_0() {
    let custom: serde_json::Value = serde_json::from_str(r#"{"key": "value"}"#).unwrap();
    let product = Product::default()
        .set_name("AeroEdit Student")
        .set_tax_category(ProductTaxCategory::Standard)
        .set_p_type(EntityType::Custom)
        .set_description("Essential tools for student pilots to manage flight logs, analyze performance, and plan routes, and ensure compliance. Valid student pilot certificate from the FAA required.")
        .set_image_url("https://paddle.s3.amazonaws.com/user/165798/bT1XUOJAQhOUxGs83cbk_pro.png")
        .set_custom_data(custom);
    let request = client().create_product(product).unwrap();
    assert_eq!(
        request.body,
        Some(
            "{\"custom_data\":{\"key\":\"value\"},\"description\":\"Essential tools for student pilots to manage flight logs, analyze performance, and plan routes, and ensure compliance. Valid student pilot certificate from the FAA required.\",\"image_url\":\"https://paddle.s3.amazonaws.com/user/165798/bT1XUOJAQhOUxGs83cbk_pro.png\",\"name\":\"AeroEdit Student\",\"tax_category\":\"standard\",\"type\":\"custom\"}"
                .to_string()
        )
    );
}

#[test]
fn create_omits_what_is_not_set() {
    let request = client()
        .create_product(
            Product::default()
                .set_name("Pilot")
                .set_tax_category(ProductTaxCategory::SaaS),
        )
        .unwrap();
    let text = request.body.unwrap();
    assert_eq!(text, r#"{"name":"Pilot","tax_category":"saas"}"#);
    assert!(!text.contains("null"));
    let body: serde_json::Value = serde_json::from_str(&text).unwrap();
    let names: Vec<&str> = body.as_object().unwrap().keys().map(|k| k.as_str()).collect();
    assert_eq!(names, vec!["name", "tax_category"]);
}

#[test]
fn test_update_price_t_0() {
    let request = client()
        .update_price("pri_1", Price::default().set_status(EntityStatus::Active))
        .unwrap();
    assert_eq!(request.method, Method::Patch);
    assert_eq!(request.url, "https://sandbox-api.paddle.com/prices/pri_1");
    assert_eq!(request.body, Some(r#"{"status":"active"}"#.to_string()));
    let request = client()
        .update_price("pri_1", Price::default().set_status(EntityStatus::Archived))
        .unwrap();
    assert_eq!(request.body, Some(r#"{"status":"archived"}"#.to_string()));
}

#[test]
fn test_create_price_t_0() {
    let request = client().create_price(Price::default()).unwrap();
    assert_eq!(request.method, Method::Post);
    assert_eq!(request.url, "https://sandbox-api.paddle.com/prices");
    assert_eq!(request.body, Some("{}".to_string()));
}

#[test]
fn create_price_with_every_part() {
    let price = Price::default()
        .set_description("Monthly")
        .set_product_id("pro_1")
        .set_unit_price(UnitPrice::new("1000", "USD"))
        .set_billing_cycle(BillingCycle::new(1, "month"))
        .set_trial_period(TrialPeriod::new(2, PriceInterval::Week))
        .set_tax_mode(TaxMode::AccountSetting)
        .set_unit_price_overrides(vec![UnitPriceOverride::new(
            vec!["DE".to_string(), "FR".to_string()],
            UnitPrice::new("900", "EUR"),
        )])
        .set_quantity(Quantity::default());
    let request = client().create_price(price).unwrap();
    assert_eq!(
        request.body,
        Some(
            "{\"billing_cycle\":{\"frequency\":1,\"interval\":\"month\"},\
             \"description\":\"Monthly\",\"product_id\":\"pro_1\",\
             \"quantity\":{\"maximum\":100,\"minimum\":1},\
             \"tax_mode\":\"account_setting\",\
             \"trial_period\":{\"frequency\":2,\"interval\":\"week\"},\
             \"unit_price\":{\"amount\":\"1000\",\"currency_code\":\"USD\"},\
             \"unit_price_overrides\":[{\"country_codes\":[\"DE\",\"FR\"],\
             \"unit_price\":{\"amount\":\"900\",\"currency_code\":\"EUR\"}}]}"
                .to_string()
        )
    );
}

#[test]
fn version_header_is_sent_when_set() {
    let mut client = client();
    client.set_paddle_version("1");
    assert_eq!(client.paddle_version(), Some("1"));
    let request = client.get_product("pro_1", None).unwrap();
    assert_eq!(
        request.headers,
        vec![
            ("Content-Type".to_string(), "application/json".to_string()),
            ("Authorization".to_string(), "Bearer secret".to_string()),
            ("Paddle-Version".to_string(), "1".to_string()),
        ]
    );
}

#[test]
fn address_error_comes_before_header_error() {
    let client = Client::new("mailto:someone@example.com", "bad\ntoken").unwrap();
    assert!(matches!(
        client.get_product("pro_1", None),
        Err(ClientError::Url(_))
    ));
    let client = Client::new(BASE, "bad\ntoken").unwrap();
    assert!(matches!(
        client.create_product(Product::default()),
        Err(ClientError::Header(_))
    ));
}

#[test]
fn base_address_with_path() {
    let client = Client::new("https://example.com/api/v1/", "secret").unwrap();
    let request = client.get_price("pri_1", None).unwrap();
    assert_eq!(request.url, "https://example.com/api/v1/prices/pri_1");
    let request = client.request(Method::Get, "event-types", None).unwrap();
    assert_eq!(request.url, "https://example.com/api/v1/event-types");
}

#[test]
fn generic_operations() {
    let c = client();
    let request = c.list("products", "").unwrap();
    assert_eq!(request.url, "https://sandbox-api.paddle.com/products");
    let request = c.list("products", "per_page=2").unwrap();
    assert_eq!(request.url, "https://sandbox-api.paddle.com/products?per_page=2");
    let request = c.create("products", "{}".to_string()).unwrap();
    assert_eq!(request.method, Method::Post);
    assert_eq!(request.body, Some("{}".to_string()));
    let request = c.update("prices", "pri_9", "{}".to_string()).unwrap();
    assert_eq!(request.method, Method::Patch);
    assert_eq!(request.url, "https://sandbox-api.paddle.com/prices/pri_9");
    let request = c.get("prices", "pri_9", None).unwrap();
    assert_eq!(request.method.as_str(), "GET");
    assert_eq!(Method::Post.as_str(), "POST");
    assert_eq!(Method::Patch.as_str(), "PATCH");
    assert_eq!(request.url, "https://sandbox-api.paddle.com/prices/pri_9");
}
