use receipt_repository_api::configuration::{
    decimal_text, parse_unsigned, split_at_commas, switch_is_on, AppConfig,
};
use receipt_repository_api::converters::ConverterService;
use receipt_repository_api::decimal::Decimal;
use receipt_repository_api::entities::{
    EntityCurrency, EntityInventory, EntityProduct, EntityReceipt, EntityStore,
};
use receipt_repository_api::errors::{
    ApiError, ApiErrorConventerService, Error, STATUS_ACCEPTED, STATUS_OK,
};
use receipt_repository_api::filters::{
    contains_pattern, CustomizedInventoryService, DateRange, KeywordFilters, QueryFilters,
    SearchPlan, TextColumn, TextFilter, TextTest,
};
use receipt_repository_api::payloads::{
    CreateCurrencyInReceiptPayload, CreateProductInReceiptPayload, CreateStoreInReceiptPayload,
    FormRelationshipModelIdOrName,
};
use receipt_repository_api::responses::{
    LoginResponse, ResponseCreateReceiptPayload, ResponseCurrenciesPayload, ResponseCurrency,
    ResponseCurrencyPayload, ResponseCustomizedInventory, ResponseInventory, ResponseProduct,
    ResponseReceipt, ResponseReceiptPayload, ResponseStore, ServiceCollection,
};
use receipt_repository_api::temporal::{Date, DateTime};
use receipt_repository_api::validators::{FormDataValidatorService, FormRelationshipModelStatus};

fn day(year: i32, month: u32, day: u32) -> Date {
    Date { year, month, day }
}

fn instant(date: Date, hour: u32, minute: u32, second: u32, nanosecond: u32) -> DateTime {
    DateTime { date, hour, minute, second, nanosecond }
}

fn amount(digits: &str, scale: i64) -> Decimal {
    Decimal { negative: false, digits: digits.to_string(), scale }
}

#[test]
fn references_are_classified_by_what_they_carry() {
    let service = FormDataValidatorService::new();
    let neither = CreateCurrencyInReceiptPayload { id: None, name: None };
    let by_id = CreateCurrencyInReceiptPayload { id: Some(3), name: None };
    let by_name = CreateCurrencyInReceiptPayload { id: None, name: Some("USD".to_string()) };
    let both = CreateCurrencyInReceiptPayload { id: Some(3), name: Some("USD".to_string()) };
    assert_eq!(service.validate_relationship_model(&neither), FormRelationshipModelStatus::Absent);
    assert_eq!(service.validate_relationship_model(&by_id), FormRelationshipModelStatus::Id);
    assert_eq!(service.validate_relationship_model(&by_name), FormRelationshipModelStatus::ItemName);
    assert_eq!(service.validate_relationship_model(&both), FormRelationshipModelStatus::Id);

    let store = CreateStoreInReceiptPayload {
        id: None,
        name: None,
        alias: Some("a".to_string()),
        branch: Some("b".to_string()),
        address: Some("c".to_string()),
    };
    assert_eq!(service.validate_relationship_model(&store), FormRelationshipModelStatus::Absent);
    let product = CreateProductInReceiptPayload {
        id: None,
        name: Some("Widget".to_string()),
        alias: None,
        specification_amount: None,
        specification_unit: None,
        specification_others: None,
        brand: None,
    };
    assert_eq!(service.validate_relationship_model(&product), FormRelationshipModelStatus::ItemName);
    assert_eq!(product.get_id_field(), None);
    assert_eq!(product.get_name_field(), Some("Widget".to_string()));
    assert_eq!(by_id.get_id_field(), Some(3));
    assert_eq!(store.get_name_field(), None);
}

#[test]
fn every_error_kind_has_its_status() {
    let service = ApiErrorConventerService::new();
    let expected = vec![
        (ApiError::Generic, 406),
        (ApiError::InvalidParameter, 400),
        (ApiError::NoRecord, 404),
        (ApiError::DatabaseConnectionBroken, 500),
        (ApiError::CurrencyInvalid, 400),
        (ApiError::CurrencyIdNotExisted, 400),
        (ApiError::CurrencyNameDuplicated, 400),
        (ApiError::StoreInvalid, 400),
        (ApiError::StoreIdNotExisted, 400),
        (ApiError::StoreNameDuplicated, 400),
        (ApiError::ProductInvalid, 400),
        (ApiError::ProductIdNotExisted, 400),
        (ApiError::ProductNameDuplicated, 400),
        (ApiError::InsertCurrencyFailed, 409),
        (ApiError::InsertStoreFailed, 409),
        (ApiError::InsertProductFailed, 409),
        (ApiError::InsertReceiptFailed, 409),
        (ApiError::InsertInventoryFailed, 409),
        (ApiError::UpdateCurrencyFailed, 422),
        (ApiError::UpdateStoreFailed, 422),
        (ApiError::UpdateProductFailed, 422),
        (ApiError::UpdateReceiptFailed, 422),
        (ApiError::UpdateInventoryFailed, 422),
        (ApiError::DeleteReceiptIdNotExisted, 410),
        (ApiError::DeleteReceiptAssociatedEntryFailed, 406),
        (ApiError::DeleteReceiptEntryFailed, 422),
        (ApiError::DeleteReceiptRelatedEntryFailed, 410),
    ];
    for (error, status) in expected {
        assert_eq!(service.get_http_status_from_api_error(&error), status, "{:?}", error);
    }
}

#[test]
fn error_kinds_have_their_messages() {
    assert_eq!(ApiError::Generic.message(), "Generic error");
    assert_eq!(ApiError::NoRecord.message(), "Record not found");
    assert_eq!(ApiError::CurrencyInvalid.message(), "Both id and name are none");
    assert_eq!(ApiError::StoreInvalid.message(), ApiError::ProductInvalid.message());
    assert_eq!(ApiError::StoreNameDuplicated.message(), "Store name is duplicated");
    assert_eq!(ApiError::InsertInventoryFailed.message(), "Insert a new inventory is failed");
    assert_eq!(ApiError::UpdateReceiptFailed.message(), "Update a new receipt is failed");
    assert_eq!(
        ApiError::DeleteReceiptAssociatedEntryFailed.message(),
        "Delete data which is associated to a receipt failed"
    );
    assert_eq!(
        ApiError::DeleteReceiptRelatedEntryFailed.message(),
        "Delete data which is related to a receipt failed"
    );
}

#[test]
fn keyword_pattern_wraps_the_keyword_in_percent_signs() {
    assert_eq!(contains_pattern(&"milk".to_string()), "%milk%");
    assert_eq!(contains_pattern(&String::new()), "%%");
    assert_eq!(contains_pattern(&"50% off".to_string()), "%50% off%");
}

#[test]
fn absent_filters_restrict_nothing() {
    let service = CustomizedInventoryService::new();
    let plan = service.search_plan(&QueryFilters::default());
    assert_eq!(plan, SearchPlan { texts: vec![], dates: None });
    assert_eq!(KeywordFilters::default().plan(TextColumn::ProductName), None);
}

#[test]
fn search_plan_lists_the_filters_in_order() {
    let service = CustomizedInventoryService::new();
    let filters = QueryFilters {
        start_date: Some(day(2024, 1, 1)),
        end_date: Some(day(2024, 1, 31)),
        currency: Some("USD".to_string()),
        store_name: Some("Acme".to_string()),
        store_alias: Some("A".to_string()),
        product_name: Some("Wid".to_string()),
        product_alias: Some("w".to_string()),
        product_brand: Some("Bolt".to_string()),
    };
    let text = |column, test, value: &str| TextFilter { column, test, value: value.to_string() };
    let plan = service.search_plan(&filters);
    assert_eq!(
        plan.texts,
        vec![
            text(TextColumn::ProductName, TextTest::Like, "%Wid%"),
            text(TextColumn::ProductBrand, TextTest::Like, "%Bolt%"),
            text(TextColumn::ProductAlias, TextTest::Like, "%w%"),
            text(TextColumn::CurrencyName, TextTest::Equals, "USD"),
            text(TextColumn::StoreName, TextTest::Like, "%Acme%"),
            text(TextColumn::StoreAlias, TextTest::Like, "%A%"),
        ]
    );
    assert_eq!(
        plan.dates,
        Some(DateRange {
            start: instant(day(2024, 1, 1), 0, 0, 0, 0),
            end: instant(day(2024, 1, 31), 23, 59, 59, 999_000_000),
        })
    );
}

#[test]
fn a_single_date_restricts_nothing() {
    let service = CustomizedInventoryService::new();
    let mut filters = QueryFilters::default();
    filters.start_date = Some(day(2024, 1, 1));
    assert_eq!(service.search_plan(&filters).dates, None);
    let mut filters = QueryFilters::default();
    filters.end_date = Some(day(2024, 1, 1));
    assert_eq!(service.search_plan(&filters).dates, None);
    filters.product_brand = Some("Bolt".to_string());
    assert_eq!(
        service.search_plan(&filters).texts,
        vec![TextFilter { column: TextColumn::ProductBrand, test: TextTest::Like, value: "%Bolt%".to_string() }]
    );
}

#[test]
fn keyword_filter_plans_a_pattern_on_its_column() {
    let filters = KeywordFilters { keyword: Some("ac".to_string()) };
    assert_eq!(
        filters.plan(TextColumn::StoreName),
        Some(TextFilter { column: TextColumn::StoreName, test: TextTest::Like, value: "%ac%".to_string() })
    );
}

#[test]
fn date_range_includes_both_ends() {
    let range = DateRange {
        start: DateTime::start_of_day(day(2024, 2, 28)),
        end: DateTime::end_of_day(day(2024, 3, 1)),
    };
    assert!(range.contains(&instant(day(2024, 2, 28), 0, 0, 0, 0)));
    assert!(range.contains(&instant(day(2024, 3, 1), 23, 59, 59, 999_000_000)));
    assert!(range.contains(&instant(day(2024, 2, 29), 12, 30, 0, 5)));
    assert!(!range.contains(&instant(day(2024, 2, 27), 23, 59, 59, 999_999_999)));
    assert!(!range.contains(&instant(day(2024, 3, 1), 23, 59, 59, 999_000_001)));
    assert!(!range.contains(&instant(day(2024, 3, 2), 0, 0, 0, 0)));
    assert!(!range.contains(&instant(day(2023, 12, 31), 12, 0, 0, 0)));
    assert!(!range.contains(&instant(day(2025, 1, 1), 0, 0, 0, 0)));
}

#[test]
fn timestamps_are_ordered_field_by_field() {
    let a = instant(day(2024, 5, 17), 10, 20, 30, 40);
    assert!(a.is_at_most(&a));
    assert!(a.is_at_most(&instant(day(2024, 5, 17), 10, 20, 30, 41)));
    assert!(!a.is_at_most(&instant(day(2024, 5, 17), 10, 20, 30, 39)));
    assert!(a.is_at_most(&instant(day(2024, 5, 17), 10, 20, 31, 0)));
    assert!(a.is_at_most(&instant(day(2024, 5, 17), 10, 21, 0, 0)));
    assert!(a.is_at_most(&instant(day(2024, 5, 17), 11, 0, 0, 0)));
    assert!(a.is_at_most(&instant(day(2024, 5, 18), 0, 0, 0, 0)));
    assert!(a.is_at_most(&instant(day(2024, 6, 1), 0, 0, 0, 0)));
    assert!(a.is_at_most(&instant(day(2025, 1, 1), 0, 0, 0, 0)));
    assert!(!a.is_at_most(&instant(day(2023, 12, 31), 23, 59, 59, 999_999_999)));
    assert!(!a.is_at_most(&instant(day(2024, 4, 30), 23, 0, 0, 0)));
    assert!(!a.is_at_most(&instant(day(2024, 5, 16), 23, 0, 0, 0)));
    assert!(!a.is_at_most(&instant(day(2024, 5, 17), 9, 59, 59, 0)));
}

#[test]
fn amounts_are_compared_exactly() {
    assert!(amount("999", 2).same_as(&amount("999", 2)));
    assert!(!amount("999", 2).same_as(&amount("9990", 3)));
    assert!(!amount("999", 2).same_as(&amount("999", 1)));
    let negative = Decimal { negative: true, digits: "999".to_string(), scale: 2 };
    assert!(!amount("999", 2).same_as(&negative));
    assert_eq!(negative.clone(), negative);
}

fn currency() -> EntityCurrency {
    EntityCurrency { id: 1, name: "USD".to_string() }
}

fn store() -> EntityStore {
    EntityStore { id: 5, name: "Acme".to_string(), alias: Some("A".to_string()), branch: None, address: None }
}

fn product(id: i32, name: &str) -> EntityProduct {
    EntityProduct {
        id,
        name: name.to_string(),
        alias: None,
        brand: Some("Bolt".to_string()),
        specification_amount: Some(2),
        specification_unit: Some("kg".to_string()),
        specification_others: None,
    }
}

fn product_response(id: i32, name: &str) -> ResponseProduct {
    ResponseProduct {
        id,
        name: name.to_string(),
        alias: None,
        specification_amount: Some(2),
        specification_unit: Some("kg".to_string()),
        specification_others: None,
        brand: Some("Bolt".to_string()),
    }
}

fn entity_receipt(id: i32) -> EntityReceipt {
    EntityReceipt {
        id,
        transaction_date: instant(day(2024, 5, 17), 12, 0, 0, 0),
        is_inventory_taxed: id % 2 == 0,
        currency_id: 1,
        store_id: 5,
        transaction_id: None,
    }
}

fn inventory(id: i32, receipt_id: i32, product_id: i32) -> EntityInventory {
    EntityInventory { id, price: amount("999", 2), quantity: id, product_id, receipt_id }
}

#[test]
fn rows_convert_to_responses_field_by_field() {
    let converter = ConverterService::new();
    assert_eq!(
        converter.convert_to_currency_response(currency()),
        ResponseCurrency { id: 1, name: "USD".to_string() }
    );
    assert_eq!(
        converter.convert_to_store_response(store()),
        ResponseStore { id: 5, name: "Acme".to_string(), alias: Some("A".to_string()), branch: None, address: None }
    );
    assert_eq!(converter.convert_to_product_response(product(3, "Widget")), product_response(3, "Widget"));
    assert_eq!(
        converter.convert_to_inventory_response(inventory(7, 2, 3), product(3, "Widget")),
        ResponseInventory { id: 7, product: product_response(3, "Widget"), price: amount("999", 2), quantity: 7 }
    );
    assert_eq!(
        converter.convert_to_customized_inventory_response(
            inventory(7, 2, 3),
            product(3, "Widget"),
            entity_receipt(2),
            store(),
            currency()
        ),
        ResponseCustomizedInventory {
            id: 7,
            product: product_response(3, "Widget"),
            price: amount("999", 2),
            receipt_id: 2,
            taxed: true,
            transaction_date: instant(day(2024, 5, 17), 12, 0, 0, 0),
            store_id: 5,
            store_name: "Acme".to_string(),
            store_alias: Some("A".to_string()),
            currency: ResponseCurrency { id: 1, name: "USD".to_string() },
        }
    );
}

#[test]
fn lists_convert_in_order() {
    let converter = ConverterService::new();
    let currencies = converter.convert_to_all_currencies_response(vec![
        EntityCurrency { id: 2, name: "EUR".to_string() },
        EntityCurrency { id: 1, name: "USD".to_string() },
    ]);
    assert_eq!(
        currencies,
        vec![
            ResponseCurrency { id: 2, name: "EUR".to_string() },
            ResponseCurrency { id: 1, name: "USD".to_string() }
        ]
    );
    assert_eq!(converter.convert_to_all_stores_response(vec![]), vec![]);
    assert_eq!(converter.convert_to_all_stores_response(vec![store()]).len(), 1);
    let products = converter.convert_to_all_products_response(vec![product(2, "b"), product(1, "a")]);
    assert_eq!(products, vec![product_response(2, "b"), product_response(1, "a")]);
    let lines = converter.convert_to_all_inventories_response(vec![
        (inventory(1, 1, 2), product(2, "b")),
        (inventory(2, 1, 1), product(1, "a")),
    ]);
    assert_eq!(lines.iter().map(|l| (l.id, l.product.id)).collect::<Vec<_>>(), vec![(1, 2), (2, 1)]);
}

#[test]
fn receipts_get_their_own_lines() {
    let converter = ConverterService::new();
    let receipts = converter.convert_to_all_receipt_response(
        vec![
            (entity_receipt(1), currency(), store()),
            (entity_receipt(2), currency(), store()),
            (entity_receipt(3), currency(), store()),
        ],
        vec![
            (inventory(10, 2, 1), product(1, "a")),
            (inventory(11, 1, 2), product(2, "b")),
            (inventory(12, 2, 2), product(2, "b")),
        ],
    );
    let summary: Vec<(i32, Vec<i32>)> =
        receipts.iter().map(|r: &ResponseReceipt| (r.id, r.inventories.iter().map(|l| l.id).collect())).collect();
    assert_eq!(summary, vec![(1, vec![11]), (2, vec![10, 12]), (3, vec![])]);
    assert_eq!(receipts[1].store.id, 5);
    assert_eq!(receipts[1].currency.name, "USD");
    assert!(receipts[1].is_inventory_taxed);
    assert!(!receipts[0].is_inventory_taxed);
}

#[test]
fn customized_lines_take_their_receipt() {
    let converter = ConverterService::new();
    let all = converter.convert_to_customized_inventories_response(
        vec![(inventory(10, 2, 1), product(1, "a")), (inventory(11, 1, 2), product(2, "b"))],
        vec![(entity_receipt(1), store(), currency()), (entity_receipt(2), store(), currency())],
    );
    let all = all.expect("every receipt is there");
    assert_eq!(
        all.iter().map(|l| (l.id, l.receipt_id, l.taxed, l.store_id)).collect::<Vec<_>>(),
        vec![(10, 2, true, 5), (11, 1, false, 5)]
    );
    let missing = converter.convert_to_customized_inventories_response(
        vec![(inventory(10, 2, 1), product(1, "a")), (inventory(11, 4, 2), product(2, "b"))],
        vec![(entity_receipt(1), store(), currency()), (entity_receipt(2), store(), currency())],
    );
    assert_eq!(missing, None);
    assert_eq!(converter.convert_to_customized_inventories_response(vec![], vec![]), Some(vec![]));
}

fn config(host: &str, port: u16) -> AppConfig {
    AppConfig::new(
        host.to_string(),
        port,
        "postgres://localhost/receipts".to_string(),
        "info".to_string(),
        true,
        "/var/log".to_string(),
        "api".to_string(),
        64,
        vec!["https://a.example".to_string(), "https://b.example".to_string()],
    )
}

#[test]
fn address_is_host_colon_port() {
    assert_eq!(config("127.0.0.1", 8080).get_address(), "127.0.0.1:8080");
    assert_eq!(config("localhost", 0).get_address(), "localhost:0");
    assert_eq!(config("", 65535).get_address(), ":65535");
    assert_eq!(config("::1", 443).get_address(), "::1:443");
}

#[test]
fn ports_are_written_in_decimal() {
    assert_eq!(decimal_text(0), "0");
    assert_eq!(decimal_text(9), "9");
    assert_eq!(decimal_text(10), "10");
    assert_eq!(decimal_text(1234), "1234");
    assert_eq!(decimal_text(65535), "65535");
    for port in [7u16, 80, 100, 5432, 40001] {
        assert_eq!(decimal_text(port), port.to_string());
    }
}

#[test]
fn settings_are_handed_back_as_given() {
    let settings = config("0.0.0.0", 3000);
    assert_eq!(settings.get_db_url(), "postgres://localhost/receipts");
    assert_eq!(settings.get_log_filter(), "info");
    assert!(settings.log_to_file());
    assert_eq!(settings.get_log_directory(), "/var/log");
    assert_eq!(settings.get_log_prefix(), "api");
    assert_eq!(settings.get_writer_channel_buffer_size(), 64);
    assert_eq!(
        settings.get_allow_origins(),
        &vec!["https://a.example".to_string(), "https://b.example".to_string()]
    );
}

#[test]
fn results_are_answered_with_their_status_and_body() {
    let service = ApiErrorConventerService::new();
    let found: Result<ResponseCurrency, ApiError> = Ok(ResponseCurrency { id: 1, name: "USD".to_string() });
    assert_eq!(service.get_http_status_from_result(&found), 200);
    assert_eq!(STATUS_OK, 200);
    assert_eq!(STATUS_ACCEPTED, 202);
    assert_eq!(
        ResponseCurrencyPayload::answer(found),
        ResponseCurrencyPayload { data: Some(ResponseCurrency { id: 1, name: "USD".to_string() }), error: None }
    );
    let missing: Result<ResponseCurrency, ApiError> = Err(ApiError::NoRecord);
    assert_eq!(service.get_http_status_from_result(&missing), 404);
    assert_eq!(
        ResponseCurrencyPayload::answer(missing),
        ResponseCurrencyPayload { data: None, error: Some(ApiError::NoRecord) }
    );
    let refused: Result<ResponseCurrency, ApiError> = Err(ApiError::InvalidParameter);
    assert_eq!(service.get_http_status_from_result(&refused), 400);
    assert_eq!(ResponseReceiptPayload::empty(), ResponseReceiptPayload { data: None, error: None });
    assert_eq!(
        ResponseCreateReceiptPayload::answer(Ok(77)),
        ResponseCreateReceiptPayload { data: Some(77), error: None }
    );
}

#[test]
fn pages_are_answered_with_their_total() {
    let page = ServiceCollection {
        partial_collection: vec![ResponseCurrency { id: 2, name: "EUR".to_string() }],
        total_count: 41,
    };
    assert_eq!(
        ResponseCurrenciesPayload::answer(Ok(page)),
        ResponseCurrenciesPayload {
            data: Some(vec![ResponseCurrency { id: 2, name: "EUR".to_string() }]),
            total: Some(41),
            error: None,
        }
    );
    assert_eq!(
        ResponseCurrenciesPayload::answer(Err(ApiError::DatabaseConnectionBroken)),
        ResponseCurrenciesPayload { data: None, total: None, error: Some(ApiError::DatabaseConnectionBroken) }
    );
}

#[test]
fn failures_outside_the_services_have_their_response() {
    assert_eq!(
        Error::LoginFailed.response(),
        (401, LoginResponse { success: false, error: Some("LoginFailed".to_string()) })
    );
    assert_eq!(
        Error::AuthFailNoAuthTokenCookie.response(),
        (500, LoginResponse { success: false, error: Some("GenericFailed".to_string()) })
    );
    assert_eq!(
        Error::ConfigMissingEnv("BIND_PORT").response(),
        (500, LoginResponse { success: false, error: Some("GenericFailed".to_string()) })
    );
}

#[test]
fn numbers_are_read_from_decimal_text() {
    assert_eq!(parse_unsigned("8080", 65535), Some(8080));
    assert_eq!(parse_unsigned("0", 65535), Some(0));
    assert_eq!(parse_unsigned("+80", 65535), Some(80));
    assert_eq!(parse_unsigned("00080", 65535), Some(80));
    assert_eq!(parse_unsigned("65535", 65535), Some(65535));
    assert_eq!(parse_unsigned("65536", 65535), None);
    assert_eq!(parse_unsigned("99999999999999999999999999", u64::MAX), None);
    assert_eq!(parse_unsigned("18446744073709551615", u64::MAX), Some(u64::MAX));
    assert_eq!(parse_unsigned("18446744073709551616", u64::MAX), None);
    assert_eq!(parse_unsigned("", 65535), None);
    assert_eq!(parse_unsigned("+", 65535), None);
    assert_eq!(parse_unsigned("-1", 65535), None);
    assert_eq!(parse_unsigned("12a", 65535), None);
    assert_eq!(parse_unsigned(" 80", 65535), None);
    assert_eq!(parse_unsigned("80 ", 65535), None);
    assert_eq!(parse_unsigned("++80", 65535), None);
    assert_eq!(parse_unsigned("8+0", 65535), None);
    for text in ["0", "7", "+7", "007", "443", "65535", "65536", "x", "4 4", ""] {
        assert_eq!(parse_unsigned(text, 65535), text.parse::<u16>().ok().map(u64::from), "{:?}", text);
    }
}

#[test]
fn switch_is_off_only_for_zero() {
    assert!(!switch_is_on("0"));
    assert!(switch_is_on("1"));
    assert!(switch_is_on(""));
    assert!(switch_is_on("00"));
    assert!(switch_is_on("false"));
    assert!(switch_is_on(" 0"));
}

#[test]
fn lists_are_split_at_commas() {
    assert_eq!(split_at_commas("a,b"), vec!["a", "b"]);
    assert_eq!(split_at_commas(""), vec![""]);
    assert_eq!(split_at_commas("a"), vec!["a"]);
    assert_eq!(split_at_commas("a,"), vec!["a", ""]);
    assert_eq!(split_at_commas(",a"), vec!["", "a"]);
    assert_eq!(split_at_commas(",,"), vec!["", "", ""]);
    assert_eq!(split_at_commas("https://a.example, https://b.example"), vec!["https://a.example", " https://b.example"]);
    for list in ["x,y,z", "", ",", "ä,ö,ü", "one"] {
        let expected: Vec<String> = list.split(',').map(|field| field.to_string()).collect();
        assert_eq!(split_at_commas(list), expected);
    }
}

#[test]
fn settings_are_read_from_their_texts() {
    let read = |port: &str, size: &str| {
        AppConfig::from_settings(
            "0.0.0.0".to_string(),
            port,
            "postgres://db".to_string(),
            "debug".to_string(),
            "0",
            "logs".to_string(),
            "api".to_string(),
            size,
            "https://a.example,https://b.example",
        )
    };
    let settings = read("8443", "128").expect("both numbers are valid");
    assert_eq!(settings.get_address(), "0.0.0.0:8443");
    assert_eq!(settings.get_writer_channel_buffer_size(), 128);
    assert!(!settings.log_to_file());
    assert_eq!(
        settings.get_allow_origins(),
        &vec!["https://a.example".to_string(), "https://b.example".to_string()]
    );
    assert_eq!(settings.get_db_url(), "postgres://db");
    assert!(read("70000", "128").is_none());
    assert!(read("8443", "many").is_none());
    assert!(read("", "1").is_none());
}

#[test]
fn customized_lines_take_the_later_of_two_receipts_with_one_identifier() {
    let converter = ConverterService::new();
    let mut later = entity_receipt(1);
    later.is_inventory_taxed = true;
    let other_store =
        EntityStore { id: 9, name: "Corner".to_string(), alias: None, branch: None, address: None };
    let all = converter
        .convert_to_customized_inventories_response(
            vec![(inventory(10, 1, 1), product(1, "a"))],
            vec![(entity_receipt(1), store(), currency()), (later, other_store, currency())],
        )
        .expect("the receipt is there");
    assert_eq!(all.len(), 1);
    assert!(all[0].taxed);
    assert_eq!(all[0].store_id, 9);
    assert_eq!(all[0].store_name, "Corner");
}

#[test]
fn receipts_get_their_lines_in_the_order_of_the_lines() {
    let converter = ConverterService::new();
    let receipts = converter.convert_to_all_receipt_response(
        vec![(entity_receipt(7), currency(), store()), (entity_receipt(7), currency(), store())],
        vec![
            (inventory(3, 7, 1), product(1, "a")),
            (inventory(1, 8, 1), product(1, "a")),
            (inventory(2, 7, 2), product(2, "b")),
            (inventory(4, 7, 1), product(1, "a")),
        ],
    );
    let lines = |r: &ResponseReceipt| r.inventories.iter().map(|l| (l.id, l.product.id)).collect::<Vec<_>>();
    assert_eq!(lines(&receipts[0]), vec![(3, 1), (2, 2), (4, 1)]);
    assert_eq!(lines(&receipts[1]), vec![(3, 1), (2, 2), (4, 1)]);
    assert!(converter.convert_to_all_receipt_response(vec![], vec![(inventory(1, 1, 1), product(1, "a"))]).is_empty());
}

#[test]
fn dates_are_checked_against_the_calendar() {
    assert!(day(2024, 2, 29).is_valid());
    assert!(!day(2023, 2, 29).is_valid());
    assert!(!day(1900, 2, 29).is_valid());
    assert!(day(2000, 2, 29).is_valid());
    assert!(day(-4, 2, 29).is_valid());
    assert!(!day(-1, 2, 29).is_valid());
    assert!(day(0, 2, 29).is_valid());
    assert!(day(2024, 4, 30).is_valid());
    assert!(!day(2024, 4, 31).is_valid());
    assert!(day(2024, 12, 31).is_valid());
    assert!(!day(2024, 13, 1).is_valid());
    assert!(!day(2024, 0, 1).is_valid());
    assert!(!day(2024, 1, 0).is_valid());
    assert!(!day(2024, 1, 32).is_valid());
    assert!(day(-262_143, 1, 1).is_valid());
    assert!(!day(-262_144, 1, 1).is_valid());
    assert!(day(262_142, 12, 31).is_valid());
    assert!(!day(262_143, 1, 1).is_valid());
}

#[test]
fn timestamps_are_checked_against_the_clock() {
    let on = day(2024, 5, 17);
    assert!(instant(on, 0, 0, 0, 0).is_valid());
    assert!(instant(on, 23, 59, 59, 999_999_999).is_valid());
    assert!(instant(on, 23, 59, 59, 1_999_999_999).is_valid());
    assert!(!instant(on, 23, 59, 59, 2_000_000_000).is_valid());
    assert!(!instant(on, 23, 59, 58, 1_000_000_000).is_valid());
    assert!(!instant(on, 24, 0, 0, 0).is_valid());
    assert!(!instant(on, 0, 60, 0, 0).is_valid());
    assert!(!instant(on, 0, 0, 60, 0).is_valid());
    assert!(!instant(day(2024, 2, 30), 0, 0, 0, 0).is_valid());
    assert!(DateTime::start_of_day(on).is_valid());
    assert!(DateTime::end_of_day(on).is_valid());
}

#[test]
fn amounts_are_checked_for_their_digits() {
    assert!(amount("999", 2).is_valid());
    assert!(amount("0", 0).is_valid());
    assert!(amount("000123", -4).is_valid());
    assert!(!amount("", 0).is_valid());
    assert!(!amount("9.99", 0).is_valid());
    assert!(!amount("-5", 0).is_valid());
    assert!(!amount("+5", 0).is_valid());
    assert!(!amount("12a", 0).is_valid());
    assert!(!amount("1_000", 0).is_valid());
    assert!(!amount("٣", 0).is_valid());
}
