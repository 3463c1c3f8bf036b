use receipt_repository_api::commands::{
    is_random_kind, CommandOutcome, CommandService, Dispatch, WriterCommand,
};
use receipt_repository_api::create_receipt::ReceiptService;
use receipt_repository_api::decimal::Decimal;
use receipt_repository_api::entities::{
    EntityInventory, EntityStore, NewEntityCurrency, NewEntityInventory, NewEntityProduct,
    NewEntityReceipt, NewEntityStore, UpdateEntityCurrency, UpdateEntityProduct,
    UpdateEntityStore,
};
use receipt_repository_api::errors::ApiError;
use receipt_repository_api::gateway::{StoreReply, StoreRequest};
use receipt_repository_api::memory_store::MemoryStore;
use receipt_repository_api::patch::{
    CurrencyService, InventoryService, PatchStep, PatchWorkflow, ProductService, StoreService,
};
use receipt_repository_api::payloads::{
    CreateCurrencyInReceiptPayload, CreateReceiptPayload, CreateStoreInReceiptPayload,
    PatchCurrencyPayload, PatchInventoryPayload, PatchProductPayload, PatchReceiptPayload,
    PatchStorePayload,
};
use receipt_repository_api::responses::ResponseCreateReceipt;
use receipt_repository_api::temporal::{Date, DateTime};

fn at(year: i32, month: u32, day: u32, hour: u32) -> DateTime {
    DateTime { date: Date { year, month, day }, hour, minute: 0, second: 0, nanosecond: 0 }
}

fn amount(digits: &str, scale: i64) -> Decimal {
    Decimal { negative: false, digits: digits.to_string(), scale }
}

fn seeded() -> MemoryStore {
    let mut store = MemoryStore::new();
    assert_eq!(
        store.execute(&StoreRequest::InsertCurrency(NewEntityCurrency { name: "USD".to_string() })),
        StoreReply::Id(1)
    );
    assert_eq!(
        store.execute(&StoreRequest::InsertStore(NewEntityStore {
            name: "Acme".to_string(),
            alias: Some("A".to_string()),
            branch: Some("North".to_string()),
            address: None,
        })),
        StoreReply::Id(1)
    );
    assert_eq!(
        store.execute(&StoreRequest::InsertProduct(NewEntityProduct {
            name: "Widget".to_string(),
            alias: None,
            brand: Some("Bolt".to_string()),
            specification_amount: Some(500),
            specification_unit: Some("g".to_string()),
            specification_others: None,
        })),
        StoreReply::Id(1)
    );
    assert_eq!(
        store.execute(&StoreRequest::InsertReceipt(NewEntityReceipt {
            transaction_date: at(2024, 5, 17, 12),
            is_inventory_taxed: true,
            currency_id: 1,
            store_id: 1,
            transaction_id: None,
        })),
        StoreReply::Id(1)
    );
    assert_eq!(
        store.execute(&StoreRequest::InsertInventory(NewEntityInventory {
            price: amount("999", 2),
            quantity: 2,
            product_id: 1,
            receipt_id: 1,
        })),
        StoreReply::Id(1)
    );
    store
}

#[test]
fn patch_currency_renames_the_row() {
    let mut store = seeded();
    let service = CurrencyService::new();
    let result = service.patch_currency(&mut store, 1, &PatchCurrencyPayload { name: "EUR".to_string() });
    assert_eq!(result, Ok(()));
    assert_eq!(store.currencies()[0].name, "EUR");
    assert_eq!(store.currencies()[0].id, 1);
}

#[test]
fn patch_currency_of_missing_row_fails() {
    let mut store = seeded();
    let service = CurrencyService::new();
    let result = service.patch_currency(&mut store, 2, &PatchCurrencyPayload { name: "EUR".to_string() });
    assert_eq!(result, Err(ApiError::UpdateCurrencyFailed));
    assert_eq!(store.currencies()[0].name, "USD");
}

#[test]
fn later_patch_wins() {
    let mut store = seeded();
    let service = CommandService::new();
    let outcomes = service.run(
        &mut store,
        vec![
            WriterCommand::PatchCurrency(1, PatchCurrencyPayload { name: "A".to_string() }),
            WriterCommand::PatchCurrency(1, PatchCurrencyPayload { name: "B".to_string() }),
        ],
    );
    assert_eq!(outcomes, vec![CommandOutcome::Patched(Ok(())), CommandOutcome::Patched(Ok(()))]);
    assert_eq!(store.currencies()[0].name, "B");

    let outcomes = service.run(
        &mut store,
        vec![
            WriterCommand::PatchCurrency(1, PatchCurrencyPayload { name: "B".to_string() }),
            WriterCommand::PatchCurrency(1, PatchCurrencyPayload { name: "A".to_string() }),
        ],
    );
    assert_eq!(outcomes.len(), 2);
    assert_eq!(store.currencies()[0].name, "A");
}

#[test]
fn patch_store_changes_sets_and_clears_fields() {
    let mut store = seeded();
    let service = StoreService::new();
    let payload = PatchStorePayload {
        name: Some("Acme Ltd".to_string()),
        alias: Some(None),
        branch: None,
        address: Some(Some("1 Main St".to_string())),
    };
    assert_eq!(
        service.store_changes(1, &payload),
        UpdateEntityStore {
            id: 1,
            name: Some("Acme Ltd".to_string()),
            alias: Some(None),
            branch: None,
            address: Some(Some("1 Main St".to_string())),
        }
    );
    assert_eq!(service.patch_store(&mut store, 1, &payload), Ok(()));
    assert_eq!(
        store.stores(),
        &vec![EntityStore {
            id: 1,
            name: "Acme Ltd".to_string(),
            alias: None,
            branch: Some("North".to_string()),
            address: Some("1 Main St".to_string()),
        }]
    );
}

#[test]
fn patch_store_without_changes_or_row_fails() {
    let mut store = seeded();
    let service = StoreService::new();
    let empty = PatchStorePayload { name: None, alias: None, branch: None, address: None };
    assert_eq!(service.patch_store(&mut store, 1, &empty), Err(ApiError::UpdateStoreFailed));
    let rename = PatchStorePayload { name: Some("X".to_string()), alias: None, branch: None, address: None };
    assert_eq!(service.patch_store(&mut store, 9, &rename), Err(ApiError::UpdateStoreFailed));
    assert_eq!(store.stores()[0].name, "Acme");
}

#[test]
fn patch_product_changes_sets_and_clears_fields() {
    let mut store = seeded();
    let service = ProductService::new();
    let payload = PatchProductPayload {
        name: None,
        alias: Some(Some("W".to_string())),
        specification_amount: Some(None),
        specification_unit: Some(None),
        specification_others: Some(Some("fragile".to_string())),
        brand: None,
    };
    assert_eq!(
        service.product_changes(1, &payload),
        UpdateEntityProduct {
            id: 1,
            name: None,
            alias: Some(Some("W".to_string())),
            brand: None,
            specification_amount: Some(None),
            specification_unit: Some(None),
            specification_others: Some(Some("fragile".to_string())),
        }
    );
    assert_eq!(service.patch_product(&mut store, 1, &payload), Ok(()));
    let row = &store.products()[0];
    assert_eq!(row.name, "Widget");
    assert_eq!(row.alias, Some("W".to_string()));
    assert_eq!(row.brand, Some("Bolt".to_string()));
    assert_eq!(row.specification_amount, None);
    assert_eq!(row.specification_unit, None);
    assert_eq!(row.specification_others, Some("fragile".to_string()));
}

#[test]
fn patch_product_without_changes_or_row_fails() {
    let mut store = seeded();
    let service = ProductService::new();
    let empty = PatchProductPayload {
        name: None,
        alias: None,
        specification_amount: None,
        specification_unit: None,
        specification_others: None,
        brand: None,
    };
    assert_eq!(service.patch_product(&mut store, 1, &empty), Err(ApiError::UpdateProductFailed));
    let rename = PatchProductPayload {
        name: Some("X".to_string()),
        alias: None,
        specification_amount: None,
        specification_unit: None,
        specification_others: None,
        brand: None,
    };
    assert_eq!(service.patch_product(&mut store, 4, &rename), Err(ApiError::UpdateProductFailed));
    assert_eq!(store.products()[0].name, "Widget");
}

#[test]
fn patch_receipt_changes_only_what_is_given() {
    let mut store = seeded();
    let service = ReceiptService::new();
    let date_only = PatchReceiptPayload { transaction_date: Some(at(2025, 1, 2, 3)), is_inventory_taxed: None };
    assert_eq!(service.patch_receipt(&mut store, 1, &date_only), Ok(()));
    assert_eq!(store.receipts()[0].transaction_date, at(2025, 1, 2, 3));
    assert!(store.receipts()[0].is_inventory_taxed);
    let tax_only = PatchReceiptPayload { transaction_date: None, is_inventory_taxed: Some(false) };
    assert_eq!(service.patch_receipt(&mut store, 1, &tax_only), Ok(()));
    assert_eq!(store.receipts()[0].transaction_date, at(2025, 1, 2, 3));
    assert!(!store.receipts()[0].is_inventory_taxed);
    let both = PatchReceiptPayload { transaction_date: Some(at(2026, 6, 7, 8)), is_inventory_taxed: Some(true) };
    assert_eq!(service.patch_receipt(&mut store, 1, &both), Ok(()));
    assert_eq!(store.receipts()[0].transaction_date, at(2026, 6, 7, 8));
    assert!(store.receipts()[0].is_inventory_taxed);
    assert_eq!(store.receipts()[0].currency_id, 1);
    assert_eq!(store.receipts()[0].store_id, 1);
}

#[test]
fn patch_receipt_of_missing_row_is_no_error() {
    let mut store = seeded();
    let service = ReceiptService::new();
    let both = PatchReceiptPayload { transaction_date: Some(at(2026, 6, 7, 8)), is_inventory_taxed: Some(false) };
    assert_eq!(service.patch_receipt(&mut store, 5, &both), Ok(()));
    assert_eq!(store.receipts()[0].transaction_date, at(2024, 5, 17, 12));
    let neither = PatchReceiptPayload { transaction_date: None, is_inventory_taxed: None };
    assert_eq!(service.patch_receipt(&mut store, 1, &neither), Ok(()));
    assert_eq!(store.receipts()[0].transaction_date, at(2024, 5, 17, 12));
}

#[test]
fn patch_inventory_changes_price_and_quantity() {
    let mut store = seeded();
    let service = InventoryService::new();
    let price = PatchInventoryPayload { price: Some(amount("1050", 2)), quantity: None };
    assert_eq!(service.patch_inventory(&mut store, 1, price), Ok(()));
    assert_eq!(
        store.inventories()[0],
        EntityInventory { id: 1, price: amount("1050", 2), quantity: 2, product_id: 1, receipt_id: 1 }
    );
    let quantity = PatchInventoryPayload { price: None, quantity: Some(7) };
    assert_eq!(service.patch_inventory(&mut store, 1, quantity), Ok(()));
    assert_eq!(store.inventories()[0].quantity, 7);
    assert_eq!(store.inventories()[0].price, amount("1050", 2));
    let both = PatchInventoryPayload { price: Some(amount("1", 0)), quantity: Some(1) };
    assert_eq!(service.patch_inventory(&mut store, 1, both), Ok(()));
    assert_eq!(
        store.inventories()[0],
        EntityInventory { id: 1, price: amount("1", 0), quantity: 1, product_id: 1, receipt_id: 1 }
    );
}

#[test]
fn patch_inventory_of_missing_row_fails() {
    let mut store = seeded();
    let service = InventoryService::new();
    let both = PatchInventoryPayload { price: Some(amount("1", 0)), quantity: Some(1) };
    assert_eq!(service.patch_inventory(&mut store, 3, both), Err(ApiError::NoRecord));
    assert_eq!(store.inventories()[0].quantity, 2);
}

fn finished(step: PatchStep) -> Result<(), ApiError> {
    match step {
        PatchStep::Finished(result) => result,
        PatchStep::Pending(workflow) => panic!("still pending: {:?}", workflow),
    }
}

#[test]
fn patch_workflows_report_store_failures() {
    let currency = || PatchWorkflow::Currency(UpdateEntityCurrency { id: 1, name: "X".to_string() });
    assert_eq!(currency().request(), StoreRequest::UpdateCurrency(UpdateEntityCurrency { id: 1, name: "X".to_string() }));
    assert_eq!(finished(currency().advance(StoreReply::Done)), Ok(()));
    assert_eq!(finished(currency().advance(StoreReply::Failed)), Err(ApiError::UpdateCurrencyFailed));
    assert_eq!(finished(currency().advance(StoreReply::ConnectionBroken)), Err(ApiError::DatabaseConnectionBroken));

    let service = ReceiptService::new();
    let receipt = || {
        PatchWorkflow::Receipt(service.receipt_changes(
            1,
            &PatchReceiptPayload { transaction_date: None, is_inventory_taxed: Some(true) },
        ))
    };
    assert_eq!(finished(receipt().advance(StoreReply::Failed)), Err(ApiError::UpdateReceiptFailed));

    let find = || PatchWorkflow::FindInventory(4, PatchInventoryPayload { price: None, quantity: Some(3) });
    assert_eq!(find().request(), StoreRequest::FetchInventory(4));
    assert_eq!(finished(find().advance(StoreReply::Failed)), Err(ApiError::NoRecord));
    assert_eq!(finished(find().advance(StoreReply::ConnectionBroken)), Err(ApiError::DatabaseConnectionBroken));
    let row = EntityInventory { id: 4, price: amount("5", 1), quantity: 1, product_id: 2, receipt_id: 3 };
    match find().advance(StoreReply::Inventory(row)) {
        PatchStep::Pending(next) => {
            assert_eq!(
                next.request(),
                StoreRequest::UpdateInventory(EntityInventory {
                    id: 4,
                    price: amount("5", 1),
                    quantity: 3,
                    product_id: 2,
                    receipt_id: 3,
                })
            );
            assert_eq!(finished(next.advance(StoreReply::Failed)), Err(ApiError::UpdateInventoryFailed));
        }
        PatchStep::Finished(result) => panic!("finished early: {:?}", result),
    }
}

fn drive(store: &mut MemoryStore, command: WriterCommand) -> CommandOutcome {
    let service = CommandService::new();
    let mut dispatch = service.begin(command);
    loop {
        match dispatch {
            Dispatch::Idle(outcome) => return outcome,
            Dispatch::Executing(workflow) => {
                let request = service.request(&workflow);
                let reply = store.execute(&request);
                dispatch = service.resume(workflow, reply);
            }
        }
    }
}

fn payload(store_name: &str) -> CreateReceiptPayload {
    CreateReceiptPayload {
        transaction_id: None,
        transaction_date: at(2024, 1, 1, 0),
        is_inventory_taxed: false,
        currency: CreateCurrencyInReceiptPayload { id: Some(1), name: None },
        store: CreateStoreInReceiptPayload {
            id: None,
            name: Some(store_name.to_string()),
            alias: None,
            branch: None,
            address: None,
        },
        inventories: vec![],
    }
}

#[test]
fn dispatcher_steps_agree_with_direct_execution() {
    let mut stepped = seeded();
    let mut direct = seeded();
    let service = CommandService::new();
    let commands = || {
        vec![
            WriterCommand::CreateReceipt(payload("Shop")),
            WriterCommand::CreateReceipt(payload("Shop")),
            WriterCommand::PatchStore(
                2,
                PatchStorePayload { name: None, alias: Some(Some("S".to_string())), branch: None, address: None },
            ),
            WriterCommand::PatchInventory(1, PatchInventoryPayload { price: None, quantity: Some(5) }),
            WriterCommand::DeleteReceipt(1),
            WriterCommand::DeleteReceipt(1),
            WriterCommand::PatchProduct(
                1,
                PatchProductPayload {
                    name: Some("gone".to_string()),
                    alias: None,
                    specification_amount: None,
                    specification_unit: None,
                    specification_others: None,
                    brand: None,
                },
            ),
        ]
    };
    let mut outcomes = Vec::new();
    for command in commands() {
        outcomes.push(drive(&mut stepped, command));
    }
    let expected = service.run(&mut direct, commands());
    assert_eq!(outcomes, expected);
    assert_eq!(
        outcomes,
        vec![
            CommandOutcome::Created(Ok(ResponseCreateReceipt { id: 2 })),
            CommandOutcome::Created(Err(ApiError::StoreNameDuplicated)),
            CommandOutcome::Patched(Ok(())),
            CommandOutcome::Patched(Ok(())),
            CommandOutcome::Deleted(Ok(())),
            CommandOutcome::Deleted(Err(ApiError::DeleteReceiptIdNotExisted)),
            CommandOutcome::Patched(Err(ApiError::UpdateProductFailed)),
        ]
    );
    assert_eq!(stepped.stores(), direct.stores());
    assert_eq!(stepped.products(), direct.products());
    assert_eq!(stepped.receipts(), direct.receipts());
    assert_eq!(stepped.inventories(), direct.inventories());
    assert_eq!(stepped.currencies(), direct.currencies());
    assert_eq!(stepped.stores().len(), 1);
    assert_eq!(stepped.stores()[0].alias, Some("S".to_string()));
    assert!(stepped.products().is_empty());
    assert_eq!(stepped.currencies().len(), 1);
}

#[test]
fn invalid_creation_never_reaches_the_store() {
    let service = CommandService::new();
    let mut form = payload("Shop");
    form.currency = CreateCurrencyInReceiptPayload { id: None, name: None };
    match service.begin(WriterCommand::CreateReceipt(form)) {
        Dispatch::Idle(outcome) => assert_eq!(outcome, CommandOutcome::Created(Err(ApiError::CurrencyInvalid))),
        Dispatch::Executing(_) => panic!("a request was made"),
    }
}

#[test]
fn accepted_receipt_gets_a_fresh_random_token() {
    let service = CommandService::new();
    let mut form = payload("Shop");
    form.transaction_id = Some(42);
    let (first, first_token) = service.accept_receipt(form);
    let (_, second_token) = service.accept_receipt(payload("Shop"));
    assert!(is_random_kind(first_token));
    assert!(is_random_kind(second_token));
    assert_ne!(first_token, 42);
    assert_ne!(first_token, second_token);
    assert_eq!((first_token >> 76) & 0xf, 4);
    assert_eq!((first_token >> 62) & 0x3, 2);
    match first {
        WriterCommand::CreateReceipt(stamped) => {
            assert_eq!(stamped.transaction_id, Some(first_token));
            assert_eq!(stamped.store.name, Some("Shop".to_string()));
        }
        other => panic!("wrong command: {:?}", other),
    }
    assert_eq!(payload("Shop").with_transaction_id(9).transaction_id, Some(9));
}

#[test]
fn random_kind_is_told_by_version_and_variant() {
    assert!(is_random_kind(0x0000_0000_0000_4000_8000_0000_0000_0000));
    assert!(is_random_kind(0xffff_ffff_ffff_4fff_bfff_ffff_ffff_ffff));
    assert!(!is_random_kind(0));
    assert!(!is_random_kind(0x0000_0000_0000_1000_8000_0000_0000_0000));
    assert!(!is_random_kind(0x0000_0000_0000_4000_c000_0000_0000_0000));
}
