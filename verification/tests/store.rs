use receipt_repository_api::entities::{
    EntityCurrency, EntityReceipt, NewEntityCurrency, NewEntityReceipt, NewEntityStore,
    ProductAttributes, NewEntityProduct, UpdateEntityCurrency, UpdateEntityReceipt,
    UpdateEntityStore,
};
use receipt_repository_api::gateway::{StoreReply, StoreRequest};
use receipt_repository_api::memory_store::MemoryStore;
use receipt_repository_api::errors::ApiError;
use receipt_repository_api::temporal::{Date, DateTime};

fn noon() -> DateTime {
    DateTime { date: Date { year: 2024, month: 5, day: 17 }, hour: 12, minute: 0, second: 0, nanosecond: 0 }
}

fn insert_currency(store: &mut MemoryStore, name: &str) -> StoreReply {
    store.execute(&StoreRequest::InsertCurrency(NewEntityCurrency { name: name.to_string() }))
}

#[test]
fn new_store_is_empty() {
    let store = MemoryStore::new();
    assert!(store.currencies().is_empty());
    assert!(store.stores().is_empty());
    assert!(store.products().is_empty());
    assert!(store.receipts().is_empty());
    assert!(store.inventories().is_empty());
}

#[test]
fn inserts_number_rows_from_one() {
    let mut store = MemoryStore::new();
    assert_eq!(insert_currency(&mut store, "USD"), StoreReply::Id(1));
    assert_eq!(insert_currency(&mut store, "EUR"), StoreReply::Id(2));
    assert_eq!(
        store.currencies(),
        &vec![EntityCurrency { id: 1, name: "USD".to_string() }, EntityCurrency { id: 2, name: "EUR".to_string() }]
    );
    assert_eq!(store.execute(&StoreRequest::CurrencyExistsById(2)), StoreReply::Flag(true));
    assert_eq!(store.execute(&StoreRequest::CurrencyExistsById(3)), StoreReply::Flag(false));
    assert_eq!(store.execute(&StoreRequest::CurrencyExistsByName("EUR".to_string())), StoreReply::Flag(true));
    assert_eq!(store.execute(&StoreRequest::CurrencyExistsByName("eur".to_string())), StoreReply::Flag(false));
}

#[test]
fn store_lookup_compares_name_and_branch() {
    let mut store = MemoryStore::new();
    let acme = |branch: Option<&str>| NewEntityStore {
        name: "Acme".to_string(),
        alias: None,
        branch: branch.map(|b| b.to_string()),
        address: None,
    };
    assert_eq!(store.execute(&StoreRequest::InsertStore(acme(Some("North")))), StoreReply::Id(1));
    let ask = |store: &mut MemoryStore, name: &str, branch: Option<&str>| {
        store.execute(&StoreRequest::StoreExistsByNameAndBranch(name.to_string(), branch.map(|b| b.to_string())))
    };
    assert_eq!(ask(&mut store, "Acme", Some("North")), StoreReply::Flag(true));
    assert_eq!(ask(&mut store, "Acme", Some("South")), StoreReply::Flag(false));
    assert_eq!(ask(&mut store, "Acme", None), StoreReply::Flag(false));
    assert_eq!(ask(&mut store, "Other", None), StoreReply::Flag(false));
    assert_eq!(ask(&mut store, "Other", Some("North")), StoreReply::Flag(false));
    assert_eq!(store.execute(&StoreRequest::InsertStore(acme(None))), StoreReply::Id(2));
    assert_eq!(ask(&mut store, "Acme", None), StoreReply::Flag(true));
    assert_eq!(store.execute(&StoreRequest::DeleteStore(1)), StoreReply::Done);
    assert_eq!(ask(&mut store, "Acme", Some("North")), StoreReply::Flag(false));
    assert_eq!(ask(&mut store, "Acme", None), StoreReply::Flag(true));
    assert_eq!(store.execute(&StoreRequest::StoreExistsById(1)), StoreReply::Flag(false));
    assert_eq!(store.execute(&StoreRequest::StoreExistsById(2)), StoreReply::Flag(true));
}

#[test]
fn product_lookup_compares_the_whole_tuple() {
    let mut store = MemoryStore::new();
    let reply = store.execute(&StoreRequest::InsertProduct(NewEntityProduct {
        name: "Milk".to_string(),
        alias: Some("m".to_string()),
        brand: Some("Farm".to_string()),
        specification_amount: Some(1),
        specification_unit: Some("l".to_string()),
        specification_others: None,
    }));
    assert_eq!(reply, StoreReply::Id(1));
    let ask = |store: &mut MemoryStore, brand: Option<&str>, amount: Option<i32>, unit: Option<&str>, others: Option<&str>| {
        store.execute(&StoreRequest::ProductExistsByName(ProductAttributes {
            name: "Milk".to_string(),
            brand: brand.map(|t| t.to_string()),
            specification_amount: amount,
            specification_unit: unit.map(|t| t.to_string()),
            specification_others: others.map(|t| t.to_string()),
        }))
    };
    assert_eq!(ask(&mut store, Some("Farm"), Some(1), Some("l"), None), StoreReply::Flag(true));
    assert_eq!(ask(&mut store, None, None, None, None), StoreReply::Flag(false));
    assert_eq!(ask(&mut store, None, Some(1), Some("l"), None), StoreReply::Flag(false));
    assert_eq!(ask(&mut store, Some("Farm"), None, Some("l"), None), StoreReply::Flag(false));
    assert_eq!(ask(&mut store, Some("Farm"), Some(1), None, None), StoreReply::Flag(false));
    assert_eq!(ask(&mut store, Some("Dairy"), Some(1), Some("l"), None), StoreReply::Flag(false));
    assert_eq!(ask(&mut store, Some("Farm"), Some(2), Some("l"), None), StoreReply::Flag(false));
    assert_eq!(ask(&mut store, Some("Farm"), Some(1), Some("ml"), None), StoreReply::Flag(false));
    assert_eq!(ask(&mut store, Some("Farm"), Some(1), Some("l"), Some("organic")), StoreReply::Flag(false));
}

#[test]
fn updates_fail_on_missing_rows_and_empty_changes() {
    let mut store = MemoryStore::new();
    assert_eq!(insert_currency(&mut store, "USD"), StoreReply::Id(1));
    let rename = |id: i32| StoreRequest::UpdateCurrency(UpdateEntityCurrency { id, name: "EUR".to_string() });
    assert_eq!(store.execute(&rename(2)), StoreReply::Failed);
    assert_eq!(store.execute(&rename(1)), StoreReply::Done);
    assert_eq!(store.currencies()[0].name, "EUR");
    let nothing = UpdateEntityStore { id: 1, name: None, alias: None, branch: None, address: None };
    assert_eq!(store.execute(&StoreRequest::UpdateStore(nothing)), StoreReply::Failed);
    assert_eq!(store.execute(&StoreRequest::FetchReceipt(1)), StoreReply::Failed);
    assert_eq!(store.execute(&StoreRequest::FetchInventory(1)), StoreReply::Failed);
    let receipt = UpdateEntityReceipt { id: 1, transaction_date: Some(noon()), is_inventory_taxed: None };
    assert_eq!(store.execute(&StoreRequest::UpdateReceipt(receipt)), StoreReply::Done);
}

#[test]
fn receipts_are_fetched_and_counted_as_references() {
    let mut store = MemoryStore::new();
    let new = NewEntityReceipt {
        transaction_date: noon(),
        is_inventory_taxed: false,
        currency_id: 4,
        store_id: 6,
        transaction_id: Some(99),
    };
    assert_eq!(store.execute(&StoreRequest::InsertReceipt(new)), StoreReply::Id(1));
    assert_eq!(
        store.execute(&StoreRequest::FetchReceipt(1)),
        StoreReply::Receipt(EntityReceipt {
            id: 1,
            transaction_date: noon(),
            is_inventory_taxed: false,
            currency_id: 4,
            store_id: 6,
            transaction_id: Some(99),
        })
    );
    assert_eq!(store.execute(&StoreRequest::StoreUnreferenced(6)), StoreReply::Flag(false));
    assert_eq!(store.execute(&StoreRequest::StoreUnreferenced(4)), StoreReply::Flag(true));
    assert_eq!(store.execute(&StoreRequest::CurrencyUnreferenced(4)), StoreReply::Flag(false));
    assert_eq!(store.execute(&StoreRequest::CurrencyUnreferenced(6)), StoreReply::Flag(true));
    assert_eq!(store.execute(&StoreRequest::ReceiptExists(1)), StoreReply::Flag(true));
    assert_eq!(store.execute(&StoreRequest::DeleteReceipt(1)), StoreReply::Done);
    assert_eq!(store.execute(&StoreRequest::ReceiptExists(1)), StoreReply::Flag(false));
    assert_eq!(store.execute(&StoreRequest::InventoryProductPairs(1)), StoreReply::Pairs(vec![]));
}

#[test]
fn replies_are_read_as_the_kind_that_is_expected() {
    assert_eq!(StoreReply::Flag(true).flag(ApiError::Generic), Ok(true));
    assert_eq!(StoreReply::Done.flag(ApiError::Generic), Err(ApiError::Generic));
    assert_eq!(StoreReply::ConnectionBroken.flag(ApiError::Generic), Err(ApiError::DatabaseConnectionBroken));
    assert_eq!(StoreReply::Id(4).id(ApiError::InsertStoreFailed), Ok(4));
    assert_eq!(StoreReply::Failed.id(ApiError::InsertStoreFailed), Err(ApiError::InsertStoreFailed));
    assert_eq!(StoreReply::ConnectionBroken.id(ApiError::InsertStoreFailed), Err(ApiError::DatabaseConnectionBroken));
    assert_eq!(StoreReply::Done.done(ApiError::NoRecord), Ok(()));
    assert_eq!(StoreReply::Flag(false).done(ApiError::NoRecord), Err(ApiError::NoRecord));
    assert_eq!(StoreReply::ConnectionBroken.done(ApiError::NoRecord), Err(ApiError::DatabaseConnectionBroken));
}
