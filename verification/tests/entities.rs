use paddle_api::entities::price::list::ListPricesParams;
use paddle_api::entities::price::{
    BillingCycle, ImportMeta, Price, PriceInterval, Quantity, TaxMode, TrialPeriod, UnitPrice,
    UnitPriceOverride,
};
use paddle_api::entities::product::list::ListProductsParams;
use paddle_api::entities::product::{Product, ProductTaxCategory};
use paddle_api::entities::{
    BaseListParams, BaseListParamsGettersSetters, EntityBase, EntityBaseGettersSetters,
    EntityStatus, EntityType,
};
use paddle_api::{Client, Config, DecodeError};

fn value(text: &str) -> serde_json::Value {
    serde_json::from_str(text).unwrap()
}

#[test]
fn product_tax_category_tags() {
    let all = [
        (ProductTaxCategory::DigitalGoods, "digital-goods"),
        (ProductTaxCategory::EBooks, "ebooks"),
        (ProductTaxCategory::ImplementationServices, "implementation-services"),
        (ProductTaxCategory::ProfessionalServices, "professional-services"),
        (ProductTaxCategory::SaaS, "saas"),
        (
            ProductTaxCategory::SoftwareProgrammingServices,
            "software-programming-services",
        ),
        (ProductTaxCategory::Standard, "standard"),
        (ProductTaxCategory::TrainingServices, "training-services"),
        (ProductTaxCategory::WebsiteHosting, "website-hosting"),
    ];
    for (category, tag) in all {
        assert_eq!(category.as_str(), tag);
        assert_eq!(category.to_string(), tag);
        assert_eq!(ProductTaxCategory::from_str(tag), Ok(category));
        assert_eq!(
            ProductTaxCategory::from_str(category.as_str()).map(|c| c.to_string()),
            Ok(tag.to_string())
        );
    }
    assert_eq!(
        ProductTaxCategory::from_str("DigitalGoods"),
        Err("Unknown product tax category".to_string())
    );
    assert_eq!(
        ProductTaxCategory::from_str("digital_goods"),
        Err("Unknown product tax category".to_string())
    );
}

#[test]
fn new_product_has_nothing_set() {
    let product = Product::default();
    assert_eq!(product.id(), None);
    assert_eq!(product.name(), None);
    assert_eq!(product.description(), None);
    assert_eq!(product.p_type(), None);
    assert_eq!(product.status(), None);
    assert_eq!(product.custom_data(), None);
    assert_eq!(product.import_meta(), None);
    assert_eq!(product.created_at(), None);
    assert_eq!(product.updated_at(), None);
    assert_eq!(product.tax_category(), None);
    assert_eq!(product.image_url(), None);
    assert!(product.prices().is_none());
    assert_eq!(product.to_json(), value("{}"));
}

#[test]
fn product_builders_set_one_attribute_each() {
    let product = Product::default()
        .set_name("Name")
        .set_description("About")
        .set_p_type(EntityType::Standard)
        .set_status(EntityStatus::Archived)
        .set_custom_data(value(r#"[1, "two", null]"#))
        .set_tax_category(ProductTaxCategory::EBooks)
        .set_image_url("https://example.com/i.png");
    assert_eq!(product.name(), Some("Name"));
    assert_eq!(product.description(), Some("About"));
    assert_eq!(product.p_type(), Some(&EntityType::Standard));
    assert_eq!(product.status(), Some(&EntityStatus::Archived));
    assert_eq!(product.custom_data(), Some(&value(r#"[1, "two", null]"#)));
    assert_eq!(product.tax_category(), Some(&ProductTaxCategory::EBooks));
    assert_eq!(product.image_url(), Some("https://example.com/i.png"));
    assert_eq!(product.id(), None);

    let renamed = product.set_name("Other");
    assert_eq!(renamed.name(), Some("Other"));
    assert_eq!(renamed.description(), Some("About"));
    assert_eq!(renamed.tax_category(), Some(&ProductTaxCategory::EBooks));
    assert_eq!(
        renamed.to_json(),
        value(
            r#"{"name": "Other", "description": "About", "type": "standard",
                "status": "archived", "custom_data": [1, "two", null],
                "tax_category": "ebooks", "image_url": "https://example.com/i.png"}"#
        )
    );
}

#[test]
fn custom_data_set_to_null_is_sent_as_null() {
    let product = Product::default().set_custom_data(serde_json::Value::Null);
    assert_eq!(product.to_json(), value(r#"{"custom_data": null}"#));
}

#[test]
fn price_builders_and_parts() {
    let price = Price::default()
        .set_name("Seat")
        .set_description("Monthly")
        .set_p_type(EntityType::Custom)
        .set_status(EntityStatus::Active)
        .set_custom_data(value(r#"{"k": 1}"#))
        .set_product_id("pro_1")
        .set_billing_cycle(BillingCycle::new(1, "month").set_frequency(3).set_interval("year"))
        .set_trial_period(
            TrialPeriod::new(1, PriceInterval::Day)
                .set_frequency(2)
                .set_interval(PriceInterval::Month),
        )
        .set_tax_mode(TaxMode::Internal)
        .set_unit_price(UnitPrice::new("1", "USD").set_amount("250").set_currency_code("GBP"))
        .set_unit_price_overrides(vec![])
        .set_quantity(Quantity::new(2, 5));
    assert_eq!(price.name(), Some("Seat"));
    assert_eq!(price.description(), Some("Monthly"));
    assert_eq!(price.p_type(), Some(&EntityType::Custom));
    assert_eq!(price.status(), Some(&EntityStatus::Active));
    assert_eq!(price.product_id(), Some("pro_1"));
    assert_eq!(price.billing_cycle(), Some(&BillingCycle::new(3, "year")));
    assert_eq!(
        price.trial_period(),
        Some(&TrialPeriod::new(2, PriceInterval::Month))
    );
    assert_eq!(price.tax_mode(), Some(&TaxMode::Internal));
    assert_eq!(price.unit_price(), Some(&UnitPrice::new("250", "GBP")));
    assert_eq!(price.unit_price_overrides(), Some(&vec![]));
    assert_eq!(price.quantity(), Some(&Quantity::new(2, 5)));
    assert!(price.product().is_none());
    assert_eq!(price.id(), None);
    assert_eq!(price.created_at(), None);
    assert_eq!(price.updated_at(), None);
    assert_eq!(price.import_meta(), None);
    assert_eq!(
        price.to_json(),
        value(
            r#"{"name": "Seat", "description": "Monthly", "type": "custom", "status": "active",
                "custom_data": {"k": 1}, "product_id": "pro_1",
                "billing_cycle": {"frequency": 3, "interval": "year"},
                "trial_period": {"frequency": 2, "interval": "month"},
                "tax_mode": "internal",
                "unit_price": {"amount": "250", "currency_code": "GBP"},
                "unit_price_overrides": [],
                "quantity": {"minimum": 2, "maximum": 5}}"#
        )
    );
}

#[test]
fn parts_of_a_price() {
    let cycle = BillingCycle::new(12, "month");
    assert_eq!(cycle.frequency(), 12);
    assert_eq!(cycle.interval(), "month");
    assert_eq!(cycle.to_json(), value(r#"{"frequency": 12, "interval": "month"}"#));
    assert_eq!(BillingCycle::from_json(&cycle.to_json()).unwrap(), cycle);

    let trial = TrialPeriod::new(-3, PriceInterval::Year);
    assert_eq!(trial.frequency(), -3);
    assert_eq!(trial.interval(), &PriceInterval::Year);
    assert_eq!(trial.to_json(), value(r#"{"frequency": -3, "interval": "year"}"#));
    assert_eq!(TrialPeriod::from_json(&trial.to_json()).unwrap(), trial);

    let unit = UnitPrice::new("1999", "EUR");
    assert_eq!(unit.amount(), "1999");
    assert_eq!(unit.currency_code(), "EUR");
    assert_eq!(unit.to_json(), value(r#"{"amount": "1999", "currency_code": "EUR"}"#));
    assert_eq!(UnitPrice::from_json(&unit.to_json()).unwrap(), unit);

    let over = UnitPriceOverride::new(vec!["US".to_string(), "CA".to_string()], unit);
    assert_eq!(over.country_codes(), ["US".to_string(), "CA".to_string()]);
    assert_eq!(over.unit_price().amount(), "1999");
    assert_eq!(
        over.to_json(),
        value(
            r#"{"country_codes": ["US", "CA"],
                "unit_price": {"amount": "1999", "currency_code": "EUR"}}"#
        )
    );
    assert_eq!(UnitPriceOverride::from_json(&over.to_json()).unwrap(), over);
    assert_eq!(
        UnitPriceOverride::list_to_json(&vec![over.clone(), over.clone()]),
        value(
            r#"[{"country_codes": ["US", "CA"],
                 "unit_price": {"amount": "1999", "currency_code": "EUR"}},
                {"country_codes": ["US", "CA"],
                 "unit_price": {"amount": "1999", "currency_code": "EUR"}}]"#
        )
    );

    let quantity = Quantity::default();
    assert_eq!(quantity.minimum(), 1);
    assert_eq!(quantity.maximum(), 100);
    assert_eq!(quantity, Quantity::new(1, 100));
    assert_eq!(quantity.to_json(), value(r#"{"minimum": 1, "maximum": 100}"#));
    assert_eq!(
        Quantity::from_json(&value(r#"{"minimum": -2147483648, "maximum": 2147483647}"#)).unwrap(),
        Quantity::new(i32::MIN, i32::MAX)
    );
}

#[test]
fn numbers_out_of_range_are_refused() {
    for text in [
        r#"{"minimum": 1, "maximum": 2147483648}"#,
        r#"{"minimum": -2147483649, "maximum": 1}"#,
        r#"{"minimum": 1.0, "maximum": 1}"#,
        r#"{"minimum": "1", "maximum": 1}"#,
        r#"{"minimum": 18446744073709551615, "maximum": 1}"#,
    ] {
        assert!(matches!(
            Quantity::from_json(&value(text)),
            Err(DecodeError::Shape(_))
        ));
    }
}

#[test]
fn embedded_entities_are_written_and_read() {
    let doc = value(
        r#"{"id": "pri_1",
            "product": {"id": "pro_1", "prices": [{"id": "pri_2", "product": {"id": "pro_2"}}]}}"#,
    );
    let price = Price::from_json(&doc).unwrap();
    let product = price.product().unwrap();
    assert_eq!(product.id(), Some("pro_1"));
    let inner = &product.prices().unwrap()[0];
    assert_eq!(inner.id(), Some("pri_2"));
    assert_eq!(inner.product().unwrap().id(), Some("pro_2"));
    assert_eq!(price.to_json(), doc);
}

#[test]
fn import_block() {
    let meta = ImportMeta::from_json(&value(
        r#"{"imported_from": "paddle_classic", "external_id": "9678"}"#,
    ))
    .unwrap();
    assert_eq!(meta.imported_from(), "paddle_classic");
    assert_eq!(meta.external_id(), Some("9678"));
    let meta = ImportMeta::from_json(&value(
        r#"{"imported_from": "paddle_classic", "external_id": null}"#,
    ))
    .unwrap();
    assert_eq!(meta.external_id(), None);
    match ImportMeta::from_json(&value(r#"{"external_id": "1"}"#)) {
        Err(DecodeError::Shape(name)) => assert_eq!(name, "imported_from"),
        other => panic!("unexpected: {:?}", other),
    }
}

#[test]
fn base_attributes_alone() {
    let base = EntityBase::default().set_name("n").set_status(EntityStatus::Active);
    assert_eq!(base.name(), Some("n"));
    assert_eq!(base.status(), Some(&EntityStatus::Active));
    assert_eq!(base.id(), None);
    let read = EntityBase::from_json(&value(
        r#"{"id": "x", "type": "custom", "import_meta": {"imported_from": "a"},
            "created_at": "2023-01-01T00:00:00Z", "unknown": 1}"#,
    ))
    .unwrap();
    assert_eq!(read.id(), Some("x"));
    assert_eq!(read.p_type(), Some(&EntityType::Custom));
    assert_eq!(read.import_meta(), Some(&value(r#"{"imported_from": "a"}"#)));
    assert_eq!(read.created_at(), Some("2023-01-01T00:00:00Z"));
    assert_eq!(read.updated_at(), None);
    assert_eq!(read.custom_data(), None);
}

#[test]
fn list_parameters_getters() {
    let params = ListProductsParams::new()
        .set_after("a")
        .set_id(vec!["1".to_string()])
        .set_include(vec!["prices".to_string()])
        .set_order_by("id[ASC]")
        .set_per_page(10)
        .set_status(vec![EntityStatus::Active])
        .set_p_type(EntityType::Standard)
        .set_tax_category(vec![ProductTaxCategory::SaaS]);
    assert_eq!(params.after(), Some("a"));
    assert_eq!(params.id(), Some(&vec!["1".to_string()]));
    assert_eq!(params.includes(), Some(&vec!["prices".to_string()]));
    assert_eq!(params.order_by(), Some("id[ASC]"));
    assert_eq!(params.per_page(), Some(10));
    assert_eq!(params.status(), Some(&vec![EntityStatus::Active]));
    assert_eq!(params.p_type(), Some(&EntityType::Standard));
    assert_eq!(params.tax_category(), Some(&vec![ProductTaxCategory::SaaS]));

    let empty = ListPricesParams::default();
    assert_eq!(empty.after(), None);
    assert_eq!(empty.id(), None);
    assert_eq!(empty.includes(), None);
    assert_eq!(empty.order_by(), None);
    assert_eq!(empty.per_page(), None);
    assert_eq!(empty.status(), None);
    assert_eq!(empty.p_type(), None);
    assert_eq!(empty.recurring(), None);
    assert_eq!(empty.to_query(), "");
    assert!(empty.query_pairs().is_empty());

    let base = BaseListParams::default().set_per_page(200).set_after("x");
    assert_eq!(base.per_page(), Some(200));
    assert_eq!(base.after(), Some("x"));
    assert_eq!(base.id(), None);
}

#[test]
fn later_value_replaces_earlier_one() {
    let params = ListProductsParams::default()
        .set_per_page(1)
        .set_per_page(2)
        .set_id(vec!["a".to_string()])
        .set_id(vec!["b".to_string(), "c".to_string()]);
    assert_eq!(params.to_query(), "id=b%2Cc&per_page=2");
}

#[test]
fn values_are_escaped() {
    let params = ListProductsParams::default().set_after("a b*c-d.e_f~g/h?i=j&k%l+m\u{e9}");
    assert_eq!(
        params.to_query(),
        "after=a+b*c-d.e_f%7Eg%2Fh%3Fi%3Dj%26k%25l%2Bm%C3%A9"
    );
}

#[test]
fn configuration() {
    let config = Config::new("https://sandbox-api.paddle.com", "token");
    assert_eq!(config.url, "https://sandbox-api.paddle.com");
    assert_eq!(config.auth, "token");
    assert_eq!(config.product_id(), None);
    let config = config.set_product_id("pro_1".to_string());
    assert_eq!(config.product_id(), Some("pro_1"));
    let client = Client::from_config(&config).unwrap();
    assert_eq!(client.auth(), "token");
    assert_eq!(client.url(), "https://sandbox-api.paddle.com/");
    assert!(Client::from_config(&Config::new("not an address", "token")).is_err());
}

#[test]
fn null_custom_data_is_read_back_as_not_set() {
    let product = Product::default().set_custom_data(serde_json::Value::Null);
    let written = product.to_json();
    assert_eq!(written, value(r#"{"custom_data": null}"#));
    let read = Product::from_json(&written).unwrap();
    assert_eq!(read.custom_data(), None);
    assert_eq!(read.to_json(), value("{}"));
}

#[test]
fn what_is_written_is_read_back() {
    let price = Price::default()
        .set_name("Seat")
        .set_status(EntityStatus::Archived)
        .set_p_type(EntityType::Standard)
        .set_custom_data(value(r#"{"a": [1, 2.5, "x", true, {"b": null}]}"#))
        .set_product_id("pro_1")
        .set_billing_cycle(BillingCycle::new(i32::MAX, "month"))
        .set_trial_period(TrialPeriod::new(i32::MIN, PriceInterval::Week))
        .set_tax_mode(TaxMode::External)
        .set_unit_price(UnitPrice::new("0", "JPY"))
        .set_unit_price_overrides(vec![
            UnitPriceOverride::new(vec![], UnitPrice::new("1", "USD")),
            UnitPriceOverride::new(vec!["GB".to_string()], UnitPrice::new("2", "GBP")),
        ])
        .set_quantity(Quantity::new(0, 0));
    let written = price.to_json();
    let read = Price::from_json(&written).unwrap();
    assert_eq!(read.to_json(), written);
    assert_eq!(read.name(), Some("Seat"));
    assert_eq!(read.billing_cycle(), price.billing_cycle());
    assert_eq!(read.trial_period(), price.trial_period());
    assert_eq!(read.unit_price_overrides(), price.unit_price_overrides());
    assert_eq!(read.quantity(), price.quantity());
    assert_eq!(read.custom_data(), price.custom_data());
}
