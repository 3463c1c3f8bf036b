use receipt_repository_api::commands::{CommandOutcome, CommandService, WriterCommand};
use receipt_repository_api::create_receipt::{CreateReceiptWorkflow, CreateStep, ReceiptService};
use receipt_repository_api::decimal::Decimal;
use receipt_repository_api::delete_receipt::{DeleteReceiptWorkflow, DeleteStep};
use receipt_repository_api::entities::{
    EntityCurrency, EntityInventory, EntityProduct, EntityReceipt, EntityStore, NewEntityCurrency,
    NewEntityInventory, NewEntityProduct, NewEntityReceipt, NewEntityStore, ProductAttributes,
};
use receipt_repository_api::errors::ApiError;
use receipt_repository_api::gateway::{StoreReply, StoreRequest};
use receipt_repository_api::memory_store::MemoryStore;
use receipt_repository_api::payloads::{
    CreateCurrencyInReceiptPayload, CreateInventoryInReceiptPayload,
    CreateProductInReceiptPayload, CreateReceiptPayload, CreateStoreInReceiptPayload,
};
use receipt_repository_api::responses::ResponseCreateReceipt;
use receipt_repository_api::temporal::{Date, DateTime};

fn noon(year: i32, month: u32, day: u32) -> DateTime {
    DateTime { date: Date { year, month, day }, hour: 12, minute: 0, second: 0, nanosecond: 0 }
}

fn amount(digits: &str, scale: i64) -> Decimal {
    Decimal { negative: false, digits: digits.to_string(), scale }
}

fn currency_by_id(id: i32) -> CreateCurrencyInReceiptPayload {
    CreateCurrencyInReceiptPayload { id: Some(id), name: None }
}

fn currency_by_name(name: &str) -> CreateCurrencyInReceiptPayload {
    CreateCurrencyInReceiptPayload { id: None, name: Some(name.to_string()) }
}

fn store_by_id(id: i32) -> CreateStoreInReceiptPayload {
    CreateStoreInReceiptPayload { id: Some(id), name: None, alias: None, branch: None, address: None }
}

fn store_by_name(name: &str, branch: Option<&str>) -> CreateStoreInReceiptPayload {
    CreateStoreInReceiptPayload {
        id: None,
        name: Some(name.to_string()),
        alias: None,
        branch: branch.map(|b| b.to_string()),
        address: None,
    }
}

fn product_by_id(id: i32) -> CreateProductInReceiptPayload {
    CreateProductInReceiptPayload {
        id: Some(id),
        name: None,
        alias: None,
        specification_amount: None,
        specification_unit: None,
        specification_others: None,
        brand: None,
    }
}

fn product_by_name(name: &str, brand: Option<&str>) -> CreateProductInReceiptPayload {
    CreateProductInReceiptPayload {
        id: None,
        name: Some(name.to_string()),
        alias: None,
        specification_amount: None,
        specification_unit: None,
        specification_others: None,
        brand: brand.map(|b| b.to_string()),
    }
}

fn line(price: Decimal, quantity: i32, product: CreateProductInReceiptPayload) -> CreateInventoryInReceiptPayload {
    CreateInventoryInReceiptPayload { price, quantity, product }
}

fn receipt(
    currency: CreateCurrencyInReceiptPayload,
    store: CreateStoreInReceiptPayload,
    inventories: Vec<CreateInventoryInReceiptPayload>,
) -> CreateReceiptPayload {
    CreateReceiptPayload {
        transaction_id: Some(7),
        transaction_date: noon(2024, 5, 17),
        is_inventory_taxed: true,
        currency,
        store,
        inventories,
    }
}

fn store_with_currency(name: &str) -> MemoryStore {
    let mut store = MemoryStore::new();
    let reply = store.execute(&StoreRequest::InsertCurrency(NewEntityCurrency { name: name.to_string() }));
    assert_eq!(reply, StoreReply::Id(1));
    store
}

fn acme_widget() -> CreateReceiptPayload {
    receipt(
        currency_by_id(1),
        store_by_name("Acme", None),
        vec![line(amount("999", 2), 2, product_by_name("Widget", None))],
    )
}

#[test]
fn end_to_end_creation_writes_the_whole_aggregate() {
    let mut store = store_with_currency("USD");
    let service = ReceiptService::new();
    let result = service.create_receipt(&mut store, acme_widget());
    assert_eq!(result, Ok(ResponseCreateReceipt { id: 1 }));
    assert_eq!(store.currencies(), &vec![EntityCurrency { id: 1, name: "USD".to_string() }]);
    assert_eq!(
        store.stores(),
        &vec![EntityStore { id: 1, name: "Acme".to_string(), alias: None, branch: None, address: None }]
    );
    assert_eq!(
        store.products(),
        &vec![EntityProduct {
            id: 1,
            name: "Widget".to_string(),
            alias: None,
            brand: None,
            specification_amount: None,
            specification_unit: None,
            specification_others: None,
        }]
    );
    assert_eq!(
        store.receipts(),
        &vec![EntityReceipt {
            id: 1,
            transaction_date: noon(2024, 5, 17),
            is_inventory_taxed: true,
            currency_id: 1,
            store_id: 1,
            transaction_id: Some(7),
        }]
    );
    assert_eq!(
        store.inventories(),
        &vec![EntityInventory { id: 1, price: amount("999", 2), quantity: 2, product_id: 1, receipt_id: 1 }]
    );
}

#[test]
fn resubmitting_the_same_payload_is_rejected_as_duplicate() {
    let mut store = store_with_currency("USD");
    let service = ReceiptService::new();
    assert!(service.create_receipt(&mut store, acme_widget()).is_ok());
    let second = service.create_receipt(&mut store, acme_widget());
    assert_eq!(second, Err(ApiError::StoreNameDuplicated));
    assert_eq!(store.stores().len(), 1);
    assert_eq!(store.products().len(), 1);
    assert_eq!(store.receipts().len(), 1);
    assert_eq!(store.inventories().len(), 1);
    assert_eq!(store.currencies().len(), 1);
}

#[test]
fn currency_by_id_is_never_inserted_twice() {
    let mut store = store_with_currency("USD");
    let service = ReceiptService::new();
    let first = service.create_receipt(&mut store, receipt(currency_by_id(1), store_by_name("A", None), vec![]));
    let second = service.create_receipt(&mut store, receipt(currency_by_id(1), store_by_name("B", None), vec![]));
    assert_eq!(first, Ok(ResponseCreateReceipt { id: 1 }));
    assert_eq!(second, Ok(ResponseCreateReceipt { id: 2 }));
    assert_eq!(store.currencies().len(), 1);
    assert_eq!(store.receipts()[0].currency_id, 1);
    assert_eq!(store.receipts()[1].currency_id, 1);
}

#[test]
fn described_currency_is_inserted_once_and_shared() {
    let mut store = MemoryStore::new();
    let service = ReceiptService::new();
    let first = service.create_receipt(&mut store, receipt(currency_by_name("EUR"), store_by_name("A", None), vec![]));
    assert_eq!(first, Ok(ResponseCreateReceipt { id: 1 }));
    assert_eq!(store.currencies(), &vec![EntityCurrency { id: 1, name: "EUR".to_string() }]);
    let second = service.create_receipt(&mut store, receipt(currency_by_id(1), store_by_id(1), vec![]));
    assert_eq!(second, Ok(ResponseCreateReceipt { id: 2 }));
    assert_eq!(store.currencies().len(), 1);
    assert_eq!(store.stores().len(), 1);
    assert_eq!(store.receipts()[0].currency_id, store.receipts()[1].currency_id);
}

#[test]
fn duplicate_currency_name_is_rejected_and_nothing_is_written() {
    let mut store = store_with_currency("USD");
    let service = ReceiptService::new();
    let result = service.create_receipt(
        &mut store,
        receipt(
            currency_by_name("USD"),
            store_by_name("Acme", None),
            vec![line(amount("1", 0), 1, product_by_name("Widget", None))],
        ),
    );
    assert_eq!(result, Err(ApiError::CurrencyNameDuplicated));
    assert_eq!(store.currencies().len(), 1);
    assert!(store.stores().is_empty());
    assert!(store.products().is_empty());
    assert!(store.receipts().is_empty());
    assert!(store.inventories().is_empty());
}

#[test]
fn identifier_takes_precedence_over_name() {
    let mut store = store_with_currency("USD");
    let service = ReceiptService::new();
    let both = CreateCurrencyInReceiptPayload { id: Some(1), name: Some("USD".to_string()) };
    let result = service.create_receipt(&mut store, receipt(both, store_by_name("Acme", None), vec![]));
    assert_eq!(result, Ok(ResponseCreateReceipt { id: 1 }));
    assert_eq!(store.currencies().len(), 1);
}

#[test]
fn invalid_references_are_reported_in_order() {
    let service = ReceiptService::new();
    let nothing = CreateCurrencyInReceiptPayload { id: None, name: None };
    let no_store = CreateStoreInReceiptPayload { id: None, name: None, alias: None, branch: None, address: None };
    let no_product = CreateProductInReceiptPayload {
        id: None,
        name: None,
        alias: Some("x".to_string()),
        specification_amount: Some(3),
        specification_unit: None,
        specification_others: None,
        brand: Some("b".to_string()),
    };

    let mut store = store_with_currency("USD");
    let result = service.create_receipt(&mut store, receipt(nothing, no_store.clone(), vec![]));
    assert_eq!(result, Err(ApiError::CurrencyInvalid));

    let result = service.create_receipt(&mut store, receipt(currency_by_id(1), no_store, vec![]));
    assert_eq!(result, Err(ApiError::StoreInvalid));

    let result = service.create_receipt(
        &mut store,
        receipt(
            currency_by_id(1),
            store_by_name("Acme", None),
            vec![line(amount("1", 0), 1, product_by_name("Widget", None)), line(amount("1", 0), 1, no_product)],
        ),
    );
    assert_eq!(result, Err(ApiError::ProductInvalid));
    assert!(store.stores().is_empty());
    assert!(store.products().is_empty());
    assert!(store.receipts().is_empty());
}

#[test]
fn missing_identifiers_are_reported() {
    let service = ReceiptService::new();
    let mut store = store_with_currency("USD");
    let result = service.create_receipt(&mut store, receipt(currency_by_id(2), store_by_name("Acme", None), vec![]));
    assert_eq!(result, Err(ApiError::CurrencyIdNotExisted));
    let result = service.create_receipt(&mut store, receipt(currency_by_id(1), store_by_id(5), vec![]));
    assert_eq!(result, Err(ApiError::StoreIdNotExisted));
    let result = service.create_receipt(
        &mut store,
        receipt(currency_by_id(1), store_by_name("Acme", None), vec![line(amount("5", 1), 1, product_by_id(9))]),
    );
    assert_eq!(result, Err(ApiError::ProductIdNotExisted));
    assert!(store.stores().is_empty());
    assert!(store.receipts().is_empty());
}

#[test]
fn duplicate_store_and_product_descriptions_are_reported() {
    let service = ReceiptService::new();
    let mut store = store_with_currency("USD");
    assert!(service
        .create_receipt(
            &mut store,
            receipt(
                currency_by_id(1),
                store_by_name("Acme", Some("North")),
                vec![line(amount("999", 2), 2, product_by_name("Widget", Some("Bolt")))],
            ),
        )
        .is_ok());
    // same name, other branch: a different store
    let other_branch = service.create_receipt(
        &mut store,
        receipt(currency_by_id(1), store_by_name("Acme", Some("South")), vec![]),
    );
    assert_eq!(other_branch, Ok(ResponseCreateReceipt { id: 2 }));
    // same name and branch
    let same = service.create_receipt(
        &mut store,
        receipt(currency_by_id(1), store_by_name("Acme", Some("North")), vec![]),
    );
    assert_eq!(same, Err(ApiError::StoreNameDuplicated));
    // the store of the name without a branch is yet another store
    let no_branch = service.create_receipt(&mut store, receipt(currency_by_id(1), store_by_name("Acme", None), vec![]));
    assert_eq!(no_branch, Ok(ResponseCreateReceipt { id: 3 }));
    assert_eq!(store.stores().len(), 3);
    assert_eq!(store.stores()[2].branch, None);
    // and is a duplicate of itself
    let no_branch = service.create_receipt(&mut store, receipt(currency_by_id(1), store_by_name("Acme", None), vec![]));
    assert_eq!(no_branch, Err(ApiError::StoreNameDuplicated));
    // product: same name and brand
    let product = service.create_receipt(
        &mut store,
        receipt(
            currency_by_id(1),
            store_by_id(1),
            vec![line(amount("1", 0), 1, product_by_name("Widget", Some("Bolt")))],
        ),
    );
    assert_eq!(product, Err(ApiError::ProductNameDuplicated));
    // product: same name, other brand is new
    let product = service.create_receipt(
        &mut store,
        receipt(
            currency_by_id(1),
            store_by_id(1),
            vec![line(amount("1", 0), 1, product_by_name("Widget", Some("Nut")))],
        ),
    );
    assert_eq!(product, Ok(ResponseCreateReceipt { id: 4 }));
    // product: same name without brand is new as well, once
    let product = service.create_receipt(
        &mut store,
        receipt(currency_by_id(1), store_by_id(1), vec![line(amount("1", 0), 1, product_by_name("Widget", None))]),
    );
    assert_eq!(product, Ok(ResponseCreateReceipt { id: 5 }));
    let product = service.create_receipt(
        &mut store,
        receipt(currency_by_id(1), store_by_id(1), vec![line(amount("1", 0), 1, product_by_name("Widget", None))]),
    );
    assert_eq!(product, Err(ApiError::ProductNameDuplicated));
    assert_eq!(store.products().len(), 3);
    assert_eq!(store.stores().len(), 3);
}

#[test]
fn product_with_another_specification_is_another_product() {
    let service = ReceiptService::new();
    let mut store = store_with_currency("USD");
    let milk = |amount: Option<i32>, unit: Option<&str>, others: Option<&str>, alias: Option<&str>| {
        CreateProductInReceiptPayload {
            id: None,
            name: Some("Milk".to_string()),
            alias: alias.map(|t| t.to_string()),
            specification_amount: amount,
            specification_unit: unit.map(|t| t.to_string()),
            specification_others: others.map(|t| t.to_string()),
            brand: Some("Farm".to_string()),
        }
    };
    let create = |store: &mut MemoryStore, shop: &str, product: CreateProductInReceiptPayload| {
        service.create_receipt(
            store,
            receipt(currency_by_id(1), store_by_name(shop, None), vec![line(amount("1", 0), 1, product)]),
        )
    };
    assert!(create(&mut store, "a", milk(Some(1), Some("l"), None, None)).is_ok());
    assert!(create(&mut store, "b", milk(Some(2), Some("l"), None, None)).is_ok());
    assert!(create(&mut store, "c", milk(Some(1), Some("ml"), None, None)).is_ok());
    assert!(create(&mut store, "d", milk(Some(1), Some("l"), Some("organic"), None)).is_ok());
    assert!(create(&mut store, "e", milk(None, Some("l"), None, None)).is_ok());
    assert!(create(&mut store, "f", milk(Some(1), None, None, None)).is_ok());
    assert_eq!(store.products().len(), 6);
    // the alias does not tell products apart
    assert_eq!(
        create(&mut store, "g", milk(Some(1), Some("l"), None, Some("m"))),
        Err(ApiError::ProductNameDuplicated)
    );
    assert_eq!(create(&mut store, "g", milk(None, Some("l"), None, None)), Err(ApiError::ProductNameDuplicated));
    assert_eq!(store.products().len(), 6);
    assert_eq!(store.stores().len(), 6);
}

#[test]
fn lines_reuse_and_insert_products_in_order() {
    let service = ReceiptService::new();
    let mut store = store_with_currency("USD");
    assert!(service
        .create_receipt(
            &mut store,
            receipt(
                currency_by_id(1),
                store_by_name("Acme", None),
                vec![line(amount("100", 2), 1, product_by_name("Widget", None))],
            ),
        )
        .is_ok());
    let result = service.create_receipt(
        &mut store,
        receipt(
            currency_by_id(1),
            store_by_id(1),
            vec![
                line(amount("250", 2), 3, product_by_name("Gadget", None)),
                line(amount("100", 2), 4, product_by_id(1)),
                line(amount("75", 1), 5, product_by_name("Gizmo", None)),
            ],
        ),
    );
    assert_eq!(result, Ok(ResponseCreateReceipt { id: 2 }));
    let names: Vec<&str> = store.products().iter().map(|p| p.name.as_str()).collect();
    assert_eq!(names, vec!["Widget", "Gadget", "Gizmo"]);
    let lines: Vec<(i32, i32, i32, i32)> =
        store.inventories().iter().map(|l| (l.id, l.quantity, l.product_id, l.receipt_id)).collect();
    assert_eq!(lines, vec![(1, 1, 1, 1), (2, 3, 2, 2), (3, 4, 1, 2), (4, 5, 3, 2)]);
}

#[test]
fn receipt_without_lines_is_created() {
    let service = ReceiptService::new();
    let mut store = store_with_currency("USD");
    let result = service.create_receipt(&mut store, receipt(currency_by_id(1), store_by_name("Acme", None), vec![]));
    assert_eq!(result, Ok(ResponseCreateReceipt { id: 1 }));
    assert!(store.inventories().is_empty());
    assert!(store.products().is_empty());
    assert_eq!(store.receipts().len(), 1);
}

fn two_receipts_sharing_store_and_product() -> MemoryStore {
    let service = ReceiptService::new();
    let mut store = store_with_currency("USD");
    // receipt 1: store 1 "Acme", products 1 "Widget" and 2 "Gadget"
    assert!(service
        .create_receipt(
            &mut store,
            receipt(
                currency_by_id(1),
                store_by_name("Acme", None),
                vec![
                    line(amount("100", 2), 1, product_by_name("Widget", None)),
                    line(amount("200", 2), 1, product_by_name("Gadget", None)),
                ],
            ),
        )
        .is_ok());
    // receipt 2: same store, product 1 again
    assert!(service
        .create_receipt(
            &mut store,
            receipt(currency_by_id(1), store_by_id(1), vec![line(amount("100", 2), 9, product_by_id(1))]),
        )
        .is_ok());
    store
}

#[test]
fn delete_removes_lines_and_orphaned_products_only() {
    let service = ReceiptService::new();
    let mut store = two_receipts_sharing_store_and_product();
    assert_eq!(service.delete_receipt(&mut store, 1), Ok(()));
    assert!(store.inventories().iter().all(|l| l.receipt_id != 1));
    assert_eq!(store.inventories().len(), 1);
    assert_eq!(store.inventories()[0].id, 3);
    let products: Vec<i32> = store.products().iter().map(|p| p.id).collect();
    assert_eq!(products, vec![1]);
    let receipts: Vec<i32> = store.receipts().iter().map(|r| r.id).collect();
    assert_eq!(receipts, vec![2]);
}

#[test]
fn delete_keeps_store_and_currency_that_another_receipt_uses() {
    let service = ReceiptService::new();
    let mut store = two_receipts_sharing_store_and_product();
    assert_eq!(service.delete_receipt(&mut store, 1), Ok(()));
    assert_eq!(store.stores().len(), 1);
    assert_eq!(store.stores()[0].name, "Acme");
    assert_eq!(store.currencies().len(), 1);
}

#[test]
fn delete_of_last_receipt_removes_store_and_currency() {
    let service = ReceiptService::new();
    let mut store = two_receipts_sharing_store_and_product();
    assert_eq!(service.delete_receipt(&mut store, 1), Ok(()));
    assert_eq!(service.delete_receipt(&mut store, 2), Ok(()));
    assert!(store.receipts().is_empty());
    assert!(store.inventories().is_empty());
    assert!(store.products().is_empty());
    assert!(store.stores().is_empty());
    assert!(store.currencies().is_empty());
}

#[test]
fn delete_of_missing_receipt_is_reported() {
    let service = ReceiptService::new();
    let mut store = two_receipts_sharing_store_and_product();
    assert_eq!(service.delete_receipt(&mut store, 3), Err(ApiError::DeleteReceiptIdNotExisted));
    assert_eq!(store.receipts().len(), 2);
    assert_eq!(store.inventories().len(), 3);
    assert_eq!(store.products().len(), 2);
}

#[test]
fn identifiers_are_not_reused_after_deletion() {
    let service = ReceiptService::new();
    let mut store = two_receipts_sharing_store_and_product();
    assert_eq!(service.delete_receipt(&mut store, 2), Ok(()));
    let result = service.create_receipt(&mut store, receipt(currency_by_id(1), store_by_id(1), vec![]));
    assert_eq!(result, Ok(ResponseCreateReceipt { id: 3 }));
}

fn pending_create(step: CreateStep) -> CreateReceiptWorkflow {
    match step {
        CreateStep::Pending(workflow) => workflow,
        CreateStep::Finished(result) => panic!("finished early: {:?}", result),
    }
}

fn finished_create(step: CreateStep) -> Result<ResponseCreateReceipt, ApiError> {
    match step {
        CreateStep::Finished(result) => result,
        CreateStep::Pending(workflow) => panic!("still pending: {:?}", workflow.request()),
    }
}

#[test]
fn creation_asks_one_request_at_a_time() {
    let form = receipt(
        currency_by_name("EUR"),
        store_by_name("Acme", Some("North")),
        vec![line(amount("999", 2), 2, product_by_name("Widget", Some("Bolt"))), line(amount("5", 0), 1, product_by_id(4))],
    );
    let w = pending_create(CreateReceiptWorkflow::start(form));
    assert_eq!(w.request(), StoreRequest::CurrencyExistsByName("EUR".to_string()));
    let w = pending_create(w.advance(StoreReply::Flag(false)));
    assert_eq!(
        w.request(),
        StoreRequest::StoreExistsByNameAndBranch("Acme".to_string(), Some("North".to_string()))
    );
    let w = pending_create(w.advance(StoreReply::Flag(false)));
    assert_eq!(
        w.request(),
        StoreRequest::ProductExistsByName(ProductAttributes {
            name: "Widget".to_string(),
            brand: Some("Bolt".to_string()),
            specification_amount: None,
            specification_unit: None,
            specification_others: None,
        })
    );
    let w = pending_create(w.advance(StoreReply::Flag(false)));
    assert_eq!(w.request(), StoreRequest::ProductExistsById(4));
    let w = pending_create(w.advance(StoreReply::Flag(true)));
    assert_eq!(w.request(), StoreRequest::InsertCurrency(NewEntityCurrency { name: "EUR".to_string() }));
    let w = pending_create(w.advance(StoreReply::Id(11)));
    assert_eq!(
        w.request(),
        StoreRequest::InsertStore(NewEntityStore {
            name: "Acme".to_string(),
            alias: None,
            branch: Some("North".to_string()),
            address: None,
        })
    );
    let w = pending_create(w.advance(StoreReply::Id(22)));
    assert_eq!(
        w.request(),
        StoreRequest::InsertReceipt(NewEntityReceipt {
            transaction_date: noon(2024, 5, 17),
            is_inventory_taxed: true,
            currency_id: 11,
            store_id: 22,
            transaction_id: Some(7),
        })
    );
    let w = pending_create(w.advance(StoreReply::Id(33)));
    assert_eq!(
        w.request(),
        StoreRequest::InsertProduct(NewEntityProduct {
            name: "Widget".to_string(),
            alias: None,
            brand: Some("Bolt".to_string()),
            specification_amount: None,
            specification_unit: None,
            specification_others: None,
        })
    );
    let w = pending_create(w.advance(StoreReply::Id(44)));
    assert_eq!(
        w.request(),
        StoreRequest::InsertInventory(NewEntityInventory { price: amount("999", 2), quantity: 2, product_id: 44, receipt_id: 33 })
    );
    let w = pending_create(w.advance(StoreReply::Id(55)));
    assert_eq!(
        w.request(),
        StoreRequest::InsertInventory(NewEntityInventory { price: amount("5", 0), quantity: 1, product_id: 4, receipt_id: 33 })
    );
    assert_eq!(finished_create(w.advance(StoreReply::Id(56))), Ok(ResponseCreateReceipt { id: 33 }));
}

#[test]
fn creation_reports_store_failures() {
    let form = || receipt(currency_by_name("EUR"), store_by_name("Acme", None), vec![line(amount("1", 0), 1, product_by_name("W", None))]);
    let w = pending_create(CreateReceiptWorkflow::start(form()));
    assert_eq!(finished_create(w.advance(StoreReply::ConnectionBroken)), Err(ApiError::DatabaseConnectionBroken));
    let w = pending_create(CreateReceiptWorkflow::start(form()));
    assert_eq!(finished_create(w.advance(StoreReply::Failed)), Err(ApiError::CurrencyIdNotExisted));

    let w = pending_create(CreateReceiptWorkflow::start(form()));
    let w = pending_create(w.advance(StoreReply::Flag(false)));
    assert_eq!(finished_create(w.advance(StoreReply::Failed)), Err(ApiError::StoreNameDuplicated));

    let checked = || {
        let w = pending_create(CreateReceiptWorkflow::start(form()));
        let w = pending_create(w.advance(StoreReply::Flag(false)));
        pending_create(w.advance(StoreReply::Flag(false)))
    };
    assert_eq!(finished_create(checked().advance(StoreReply::Done)), Err(ApiError::ProductIdNotExisted));
    let w = pending_create(checked().advance(StoreReply::Flag(false)));
    assert_eq!(finished_create(w.advance(StoreReply::Failed)), Err(ApiError::InsertCurrencyFailed));
    let w = pending_create(checked().advance(StoreReply::Flag(false)));
    let w = pending_create(w.advance(StoreReply::Id(1)));
    assert_eq!(finished_create(w.advance(StoreReply::Failed)), Err(ApiError::InsertStoreFailed));
    let inserted = || {
        let w = pending_create(checked().advance(StoreReply::Flag(false)));
        let w = pending_create(w.advance(StoreReply::Id(1)));
        pending_create(w.advance(StoreReply::Id(1)))
    };
    assert_eq!(finished_create(inserted().advance(StoreReply::Failed)), Err(ApiError::InsertReceiptFailed));
    let w = pending_create(inserted().advance(StoreReply::Id(1)));
    assert_eq!(finished_create(w.advance(StoreReply::Failed)), Err(ApiError::InsertProductFailed));
    let w = pending_create(inserted().advance(StoreReply::Id(1)));
    let w = pending_create(w.advance(StoreReply::Id(1)));
    assert_eq!(finished_create(w.advance(StoreReply::ConnectionBroken)), Err(ApiError::DatabaseConnectionBroken));
    let w = pending_create(inserted().advance(StoreReply::Id(1)));
    let w = pending_create(w.advance(StoreReply::Id(1)));
    assert_eq!(finished_create(w.advance(StoreReply::Flag(true))), Err(ApiError::InsertInventoryFailed));
}

fn pending_delete(step: DeleteStep) -> DeleteReceiptWorkflow {
    match step {
        DeleteStep::Pending(workflow) => workflow,
        DeleteStep::Finished(result) => panic!("finished early: {:?}", result),
    }
}

fn finished_delete(step: DeleteStep) -> Result<(), ApiError> {
    match step {
        DeleteStep::Finished(result) => result,
        DeleteStep::Pending(workflow) => panic!("still pending: {:?}", workflow.request()),
    }
}

#[test]
fn deletion_asks_one_request_at_a_time() {
    let w = DeleteReceiptWorkflow::start(8);
    assert_eq!(w.request(), StoreRequest::ReceiptExists(8));
    let w = pending_delete(w.advance(StoreReply::Flag(true)));
    assert_eq!(w.request(), StoreRequest::InventoryProductPairs(8));
    let w = pending_delete(w.advance(StoreReply::Pairs(vec![(10, 3), (11, 4), (12, 3)])));
    assert_eq!(w.request(), StoreRequest::DeleteInventories(vec![10, 11, 12]));
    let w = pending_delete(w.advance(StoreReply::Done));
    assert_eq!(w.request(), StoreRequest::ProductUnreferenced(3));
    let w = pending_delete(w.advance(StoreReply::Flag(false)));
    assert_eq!(w.request(), StoreRequest::ProductUnreferenced(4));
    let w = pending_delete(w.advance(StoreReply::Flag(true)));
    assert_eq!(w.request(), StoreRequest::ProductUnreferenced(3));
    let w = pending_delete(w.advance(StoreReply::Flag(false)));
    assert_eq!(w.request(), StoreRequest::DeleteProducts(vec![4]));
    let w = pending_delete(w.advance(StoreReply::Done));
    assert_eq!(w.request(), StoreRequest::FetchReceipt(8));
    let row = EntityReceipt {
        id: 8,
        transaction_date: noon(2024, 1, 1),
        is_inventory_taxed: false,
        currency_id: 2,
        store_id: 5,
        transaction_id: None,
    };
    let w = pending_delete(w.advance(StoreReply::Receipt(row)));
    assert_eq!(w.request(), StoreRequest::DeleteReceipt(8));
    let w = pending_delete(w.advance(StoreReply::Done));
    assert_eq!(w.request(), StoreRequest::StoreUnreferenced(5));
    let w = pending_delete(w.advance(StoreReply::Flag(true)));
    assert_eq!(w.request(), StoreRequest::DeleteStore(5));
    let w = pending_delete(w.advance(StoreReply::Done));
    assert_eq!(w.request(), StoreRequest::CurrencyUnreferenced(2));
    let w = pending_delete(w.advance(StoreReply::Flag(true)));
    assert_eq!(w.request(), StoreRequest::DeleteCurrency(2));
    assert_eq!(finished_delete(w.advance(StoreReply::Done)), Ok(()));
}

#[test]
fn deletion_reports_store_failures() {
    let row = EntityReceipt {
        id: 8,
        transaction_date: noon(2024, 1, 1),
        is_inventory_taxed: false,
        currency_id: 2,
        store_id: 5,
        transaction_id: None,
    };
    let replies = vec![
        StoreReply::Flag(true),
        StoreReply::Pairs(vec![(10, 3)]),
        StoreReply::Done,
        StoreReply::Flag(true),
        StoreReply::Done,
        StoreReply::Receipt(row),
        StoreReply::Done,
        StoreReply::Flag(true),
        StoreReply::Done,
        StoreReply::Flag(true),
        StoreReply::Done,
    ];
    let failures = vec![
        ApiError::DeleteReceiptIdNotExisted,
        ApiError::DeleteReceiptAssociatedEntryFailed,
        ApiError::DeleteReceiptAssociatedEntryFailed,
        ApiError::DeleteReceiptAssociatedEntryFailed,
        ApiError::DeleteReceiptAssociatedEntryFailed,
        ApiError::DeleteReceiptAssociatedEntryFailed,
        ApiError::DeleteReceiptEntryFailed,
        ApiError::DeleteReceiptRelatedEntryFailed,
        ApiError::DeleteReceiptEntryFailed,
        ApiError::DeleteReceiptRelatedEntryFailed,
        ApiError::DeleteReceiptEntryFailed,
    ];
    for failing in 0..replies.len() {
        for broken in [false, true] {
            let mut w = DeleteReceiptWorkflow::start(8);
            for good in replies.iter().take(failing) {
                let reply = match good {
                    StoreReply::Flag(flag) => StoreReply::Flag(*flag),
                    StoreReply::Pairs(pairs) => StoreReply::Pairs(pairs.clone()),
                    StoreReply::Receipt(row) => StoreReply::Receipt(*row),
                    _ => StoreReply::Done,
                };
                w = pending_delete(w.advance(reply));
            }
            let reply = if broken { StoreReply::ConnectionBroken } else { StoreReply::Failed };
            let expected = if broken { ApiError::DatabaseConnectionBroken } else { failures[failing] };
            assert_eq!(finished_delete(w.advance(reply)), Err(expected));
        }
    }
}

#[test]
fn commands_run_in_submission_order() {
    let mut store = store_with_currency("USD");
    let service = CommandService::new();
    let (command, token) = service.accept_receipt(acme_widget());
    let outcomes = service.run(&mut store, vec![command, WriterCommand::DeleteReceipt(1), WriterCommand::DeleteReceipt(1)]);
    assert_eq!(
        outcomes,
        vec![
            CommandOutcome::Created(Ok(ResponseCreateReceipt { id: 1 })),
            CommandOutcome::Deleted(Ok(())),
            CommandOutcome::Deleted(Err(ApiError::DeleteReceiptIdNotExisted)),
        ]
    );
    assert!(store.receipts().is_empty());
    assert!(store.currencies().is_empty());
    assert_ne!(token, 7);
}

fn references_resolve(store: &MemoryStore) -> bool {
    let lines_resolve = store.inventories().iter().all(|line| {
        store.receipts().iter().any(|r| r.id == line.receipt_id)
            && store.products().iter().any(|p| p.id == line.product_id)
    });
    let receipts_resolve = store.receipts().iter().all(|receipt| {
        store.currencies().iter().any(|c| c.id == receipt.currency_id)
            && store.stores().iter().any(|s| s.id == receipt.store_id)
    });
    lines_resolve && receipts_resolve
}

#[test]
fn creation_appends_and_leaves_old_rows_in_place() {
    let service = ReceiptService::new();
    let mut store = two_receipts_sharing_store_and_product();
    let currencies = store.currencies().clone();
    let stores = store.stores().clone();
    let products = store.products().clone();
    let receipts = store.receipts().clone();
    let inventories = store.inventories().clone();
    let result = service.create_receipt(
        &mut store,
        receipt(
            currency_by_name("EUR"),
            store_by_id(1),
            vec![
                line(amount("1", 0), 1, product_by_id(2)),
                line(amount("2", 0), 2, product_by_name("Gizmo", None)),
            ],
        ),
    );
    assert_eq!(result, Ok(ResponseCreateReceipt { id: 3 }));
    assert_eq!(&store.currencies()[..currencies.len()], &currencies[..]);
    assert_eq!(&store.stores()[..], &stores[..]);
    assert_eq!(&store.products()[..products.len()], &products[..]);
    assert_eq!(&store.receipts()[..receipts.len()], &receipts[..]);
    assert_eq!(&store.inventories()[..inventories.len()], &inventories[..]);
    assert_eq!(store.currencies().len(), currencies.len() + 1);
    assert_eq!(store.products().len(), products.len() + 1);
    assert_eq!(store.receipts().len(), receipts.len() + 1);
    assert_eq!(store.inventories().len(), inventories.len() + 2);
    assert_eq!(store.receipts()[2].currency_id, 2);
    assert_eq!(store.receipts()[2].store_id, 1);
}

#[test]
fn references_stay_whole_through_creation_and_deletion() {
    let service = ReceiptService::new();
    let mut store = two_receipts_sharing_store_and_product();
    assert!(references_resolve(&store));
    assert!(service
        .create_receipt(
            &mut store,
            receipt(
                currency_by_name("EUR"),
                store_by_name("Corner", None),
                vec![line(amount("1", 0), 1, product_by_id(2)), line(amount("2", 0), 2, product_by_name("Gizmo", None))],
            ),
        )
        .is_ok());
    assert!(references_resolve(&store));
    for id in [1, 3, 2] {
        assert_eq!(service.delete_receipt(&mut store, id), Ok(()));
        assert!(references_resolve(&store));
    }
    assert!(store.products().is_empty());
    assert!(store.stores().is_empty());
    assert!(store.currencies().is_empty());
}
