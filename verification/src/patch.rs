//! Changes to a single row: a currency, a store, a product, a receipt or an
//! inventory line.

use crate::create_receipt::ReceiptService;
use crate::database::{has_key, row_with_key, Database};
use crate::entities::{
    EntityInventory, UpdateEntityCurrency, UpdateEntityProduct, UpdateEntityReceipt,
    UpdateEntityStore,
};
use crate::errors::ApiError;
use crate::gateway::{StoreReply, StoreRequest};
use crate::memory_store::MemoryStore;
use crate::payloads::{
    PatchCurrencyPayload, PatchInventoryPayload, PatchProductPayload, PatchReceiptPayload,
    PatchStorePayload,
};
use crate::text::{clone_text, clone_text_change};
use vstd::prelude::*;

verus! {

impl PatchCurrencyPayload {
    /// The change that the payload asks for on the currency `id`.
    pub open spec fn changes(self, id: i32) -> UpdateEntityCurrency {
        UpdateEntityCurrency { id, name: self.name }
    }
}

impl PatchStorePayload {
    /// The changes that the payload asks for on the store `id`: each field
    /// that is present, to its value or to nothing.
    pub open spec fn changes(self, id: i32) -> UpdateEntityStore {
        UpdateEntityStore {
            id,
            name: self.name,
            alias: self.alias,
            branch: self.branch,
            address: self.address,
        }
    }
}

impl PatchProductPayload {
    /// The changes that the payload asks for on the product `id`: each field
    /// that is present, to its value or to nothing.
    pub open spec fn changes(self, id: i32) -> UpdateEntityProduct {
        UpdateEntityProduct {
            id,
            name: self.name,
            alias: self.alias,
            brand: self.brand,
            specification_amount: self.specification_amount,
            specification_unit: self.specification_unit,
            specification_others: self.specification_others,
        }
    }
}

impl PatchReceiptPayload {
    /// The changes that the payload asks for on the receipt `id`.
    pub open spec fn changes(self, id: i32) -> UpdateEntityReceipt {
        UpdateEntityReceipt {
            id,
            transaction_date: self.transaction_date,
            is_inventory_taxed: self.is_inventory_taxed,
        }
    }
}

impl PatchInventoryPayload {
    /// The inventory line `row` with the price and the quantity that the
    /// payload gives; what it does not give stays.
    pub open spec fn applied(self, row: EntityInventory) -> EntityInventory {
        EntityInventory {
            id: row.id,
            price: match self.price {
                Some(price) => price,
                None => row.price,
            },
            quantity: match self.quantity {
                Some(quantity) => quantity,
                None => row.quantity,
            },
            product_id: row.product_id,
            receipt_id: row.receipt_id,
        }
    }

    pub fn apply(self, row: EntityInventory) -> (changed: EntityInventory)
        ensures
            changed == self.applied(row),
    {
        let mut changed = row;
        if self.price.is_some() && self.quantity.is_some() {
            if let Some(price) = self.price {
                changed.price = price;
            }
            if let Some(quantity) = self.quantity {
                changed.quantity = quantity;
            }
        } else if let Some(price) = self.price {
            changed.price = price;
        } else if let Some(quantity) = self.quantity {
            changed.quantity = quantity;
        }
        changed
    }
}

/// A change in progress: the request that it waits on.
#[derive(Debug, PartialEq, Eq)]
pub enum PatchWorkflow {
    Currency(UpdateEntityCurrency),
    Store(UpdateEntityStore),
    Product(UpdateEntityProduct),
    Receipt(UpdateEntityReceipt),
    /// The inventory line is fetched before it is changed.
    FindInventory(i32, PatchInventoryPayload),
    Inventory(EntityInventory),
}

/// A change after a step: waiting for the reply to its next request, or
/// finished with its result.
pub enum PatchStep {
    Pending(PatchWorkflow),
    Finished(Result<(), ApiError>),
}

impl PatchWorkflow {
    /// The requests that are still to come.
    pub open spec fn rank(self) -> nat {
        match self {
            PatchWorkflow::FindInventory(_, _) => 2,
            _ => 1,
        }
    }

    /// The request whose reply the change waits for.
    pub open spec fn pending(self) -> StoreRequest {
        match self {
            PatchWorkflow::Currency(changes) => StoreRequest::UpdateCurrency(changes),
            PatchWorkflow::Store(changes) => StoreRequest::UpdateStore(changes),
            PatchWorkflow::Product(changes) => StoreRequest::UpdateProduct(changes),
            PatchWorkflow::Receipt(changes) => StoreRequest::UpdateReceipt(changes),
            PatchWorkflow::FindInventory(id, _) => StoreRequest::FetchInventory(id),
            PatchWorkflow::Inventory(row) => StoreRequest::UpdateInventory(row),
        }
    }

    /// The error that a rejected request ends the change with.
    pub open spec fn failure(self) -> ApiError {
        match self {
            PatchWorkflow::Currency(_) => ApiError::UpdateCurrencyFailed,
            PatchWorkflow::Store(_) => ApiError::UpdateStoreFailed,
            PatchWorkflow::Product(_) => ApiError::UpdateProductFailed,
            PatchWorkflow::Receipt(_) => ApiError::UpdateReceiptFailed,
            PatchWorkflow::FindInventory(_, _) => ApiError::NoRecord,
            PatchWorkflow::Inventory(_) => ApiError::UpdateInventoryFailed,
        }
    }

    /// The step that follows when the store answers `reply` to the pending
    /// request.
    pub open spec fn after(self, reply: StoreReply) -> PatchStep {
        match self {
            PatchWorkflow::FindInventory(_, payload) => match reply {
                StoreReply::Inventory(row) => PatchStep::Pending(
                    PatchWorkflow::Inventory(payload.applied(row)),
                ),
                StoreReply::ConnectionBroken => PatchStep::Finished(
                    Err(ApiError::DatabaseConnectionBroken),
                ),
                _ => PatchStep::Finished(Err(ApiError::NoRecord)),
            },
            _ => PatchStep::Finished(reply.as_done(self.failure())),
        }
    }

    /// The request to send to the store next.
    pub fn request(&self) -> (request: StoreRequest)
        ensures
            request == self.pending(),
    {
        match self {
            PatchWorkflow::Currency(changes) => StoreRequest::UpdateCurrency(changes.clone()),
            PatchWorkflow::Store(changes) => StoreRequest::UpdateStore(changes.clone()),
            PatchWorkflow::Product(changes) => StoreRequest::UpdateProduct(changes.clone()),
            PatchWorkflow::Receipt(changes) => StoreRequest::UpdateReceipt(*changes),
            PatchWorkflow::FindInventory(id, _) => StoreRequest::FetchInventory(*id),
            PatchWorkflow::Inventory(row) => StoreRequest::UpdateInventory(row.clone()),
        }
    }

    /// Takes the store's reply to the pending request and decides what
    /// follows.
    pub fn advance(self, reply: StoreReply) -> (step: PatchStep)
        ensures
            step == self.after(reply),
            step matches PatchStep::Pending(next) ==> next.rank() < self.rank(),
            reply is ConnectionBroken ==> step == PatchStep::Finished(
                Err(ApiError::DatabaseConnectionBroken),
            ),
    {
        match self {
            PatchWorkflow::Currency(_) => PatchStep::Finished(
                reply.done(ApiError::UpdateCurrencyFailed),
            ),
            PatchWorkflow::Store(_) => PatchStep::Finished(reply.done(ApiError::UpdateStoreFailed)),
            PatchWorkflow::Product(_) => PatchStep::Finished(
                reply.done(ApiError::UpdateProductFailed),
            ),
            PatchWorkflow::Receipt(_) => PatchStep::Finished(
                reply.done(ApiError::UpdateReceiptFailed),
            ),
            PatchWorkflow::FindInventory(_, payload) => match reply {
                StoreReply::Inventory(row) => PatchStep::Pending(
                    PatchWorkflow::Inventory(payload.apply(row)),
                ),
                StoreReply::ConnectionBroken => PatchStep::Finished(
                    Err(ApiError::DatabaseConnectionBroken),
                ),
                _ => PatchStep::Finished(Err(ApiError::NoRecord)),
            },
            PatchWorkflow::Inventory(_) => PatchStep::Finished(
                reply.done(ApiError::UpdateInventoryFailed),
            ),
        }
    }
}

impl PatchStep {
    /// An upper bound on the steps that are still to come.
    pub open spec fn remaining(self) -> nat {
        match self {
            PatchStep::Pending(workflow) => workflow.rank() + 1,
            PatchStep::Finished(_) => 0,
        }
    }
}

/// What a change comes to in the store `before`. A change to a currency, a
/// store or a product fails where the row is missing, and for a store or a
/// product also where nothing is to be changed; a change to a receipt that
/// is missing changes nothing and succeeds; an inventory line must exist to
/// be changed.
pub open spec fn patch_outcome(
    before: Database,
    workflow: PatchWorkflow,
    result: Result<(), ApiError>,
    after: Database,
) -> bool {
    let done = Ok::<(), ApiError>(());
    match workflow {
        PatchWorkflow::Currency(changes) => if has_key(before.currencies, changes.id) {
            result == done && after == before.update_currency(changes)
        } else {
            result == Err::<(), ApiError>(ApiError::UpdateCurrencyFailed) && after == before
        },
        PatchWorkflow::Store(changes) => if !changes.is_empty() && has_key(
            before.stores,
            changes.id,
        ) {
            result == done && after == before.update_store(changes)
        } else {
            result == Err::<(), ApiError>(ApiError::UpdateStoreFailed) && after == before
        },
        PatchWorkflow::Product(changes) => if !changes.is_empty() && has_key(
            before.products,
            changes.id,
        ) {
            result == done && after == before.update_product(changes)
        } else {
            result == Err::<(), ApiError>(ApiError::UpdateProductFailed) && after == before
        },
        PatchWorkflow::Receipt(changes) => result == done && after == before.update_receipt(
            changes,
        ),
        PatchWorkflow::FindInventory(id, payload) => if has_key(before.inventories, id) {
            result == done && after == before.update_inventory(
                payload.applied(row_with_key(before.inventories, id)),
            )
        } else {
            result == Err::<(), ApiError>(ApiError::NoRecord) && after == before
        },
        PatchWorkflow::Inventory(row) => result == done && after == before.update_inventory(row),
    }
}

/// Runs a change against `store` from its first request to its result.
pub fn run_patch(store: &mut MemoryStore, workflow: PatchWorkflow) -> (result: Result<(), ApiError>)
    requires
        old(store)@.wf(),
    ensures
        final(store)@.wf(),
        patch_outcome(old(store)@, workflow, result, final(store)@),
{
    let ghost before = store@;
    let request = workflow.request();
    let reply = store.execute(&request);
    match workflow.advance(reply) {
        PatchStep::Finished(result) => result,
        PatchStep::Pending(next) => {
            let request = next.request();
            let reply = store.execute(&request);
            match next.advance(reply) {
                PatchStep::Finished(result) => result,
                PatchStep::Pending(_) => vstd::pervasive::unreached(),
            }
        },
    }
}

pub struct CurrencyService {}

pub struct StoreService {}

pub struct ProductService {}

pub struct InventoryService {}

impl CurrencyService {
    pub fn new() -> (service: Self) {
        Self {  }
    }

    /// The change that `patch_payload` asks for on the currency `id`.
    pub fn currency_changes(&self, id: i32, patch_payload: &PatchCurrencyPayload) -> (changes:
        UpdateEntityCurrency)
        ensures
            changes == patch_payload.changes(id),
    {
        UpdateEntityCurrency { id, name: patch_payload.name.clone() }
    }

    /// Renames the currency `id`. Fails with `UpdateCurrencyFailed`, and
    /// changes nothing, where there is no such currency.
    pub fn patch_currency(
        &self,
        store: &mut MemoryStore,
        id: i32,
        patch_payload: &PatchCurrencyPayload,
    ) -> (result: Result<(), ApiError>)
        requires
            old(store)@.wf(),
        ensures
            final(store)@.wf(),
            patch_outcome(
                old(store)@,
                PatchWorkflow::Currency(patch_payload.changes(id)),
                result,
                final(store)@,
            ),
    {
        run_patch(store, PatchWorkflow::Currency(self.currency_changes(id, patch_payload)))
    }
}

impl StoreService {
    pub fn new() -> (service: Self) {
        Self {  }
    }

    /// The changes that `store` asks for on the store `id`: the name where
    /// one is given, and each of alias, branch and address where the field
    /// is present, to its value or to nothing.
    pub fn store_changes(&self, id: i32, store: &PatchStorePayload) -> (changes: UpdateEntityStore)
        ensures
            changes == store.changes(id),
    {
        let mut updated_store = UpdateEntityStore {
            id,
            name: None,
            alias: None,
            branch: None,
            address: None,
        };
        if store.name.is_some() {
            updated_store.name = clone_text(&store.name);
        }
        if store.alias.is_some() {
            updated_store.alias = clone_text_change(&store.alias);
        }
        if store.branch.is_some() {
            updated_store.branch = clone_text_change(&store.branch);
        }
        if store.address.is_some() {
            updated_store.address = clone_text_change(&store.address);
        }
        updated_store
    }

    /// Changes the store `id`. Fails with `UpdateStoreFailed`, and changes
    /// nothing, where there is no such store or the payload is empty.
    pub fn patch_store(&self, store: &mut MemoryStore, id: i32, payload: &PatchStorePayload) -> (result:
        Result<(), ApiError>)
        requires
            old(store)@.wf(),
        ensures
            final(store)@.wf(),
            patch_outcome(
                old(store)@,
                PatchWorkflow::Store(payload.changes(id)),
                result,
                final(store)@,
            ),
    {
        run_patch(store, PatchWorkflow::Store(self.store_changes(id, payload)))
    }
}

impl ProductService {
    pub fn new() -> (service: Self) {
        Self {  }
    }

    /// The changes that `product` asks for on the product `id`: the name
    /// where one is given, and each other field where it is present, to its
    /// value or to nothing.
    pub fn product_changes(&self, id: i32, product: &PatchProductPayload) -> (changes:
        UpdateEntityProduct)
        ensures
            changes == product.changes(id),
    {
        let mut updated_product = UpdateEntityProduct {
            id,
            name: None,
            alias: None,
            brand: None,
            specification_amount: None,
            specification_unit: None,
            specification_others: None,
        };
        if product.name.is_some() {
            updated_product.name = clone_text(&product.name);
        }
        if product.alias.is_some() {
            updated_product.alias = clone_text_change(&product.alias);
        }
        if product.brand.is_some() {
            updated_product.brand = clone_text_change(&product.brand);
        }
        if product.specification_amount.is_some() {
            updated_product.specification_amount = product.specification_amount;
        }
        if product.specification_unit.is_some() {
            updated_product.specification_unit = clone_text_change(&product.specification_unit);
        }
        if product.specification_others.is_some() {
            updated_product.specification_others = clone_text_change(
                &product.specification_others,
            );
        }
        updated_product
    }

    /// Changes the product `id`. Fails with `UpdateProductFailed`, and
    /// changes nothing, where there is no such product or the payload is
    /// empty.
    pub fn patch_product(
        &self,
        store: &mut MemoryStore,
        id: i32,
        product: &PatchProductPayload,
    ) -> (result: Result<(), ApiError>)
        requires
            old(store)@.wf(),
        ensures
            final(store)@.wf(),
            patch_outcome(
                old(store)@,
                PatchWorkflow::Product(product.changes(id)),
                result,
                final(store)@,
            ),
    {
        run_patch(store, PatchWorkflow::Product(self.product_changes(id, product)))
    }
}

impl InventoryService {
    pub fn new() -> (service: Self) {
        Self {  }
    }

    /// Changes the price and the quantity of the inventory line `id`, each
    /// where the payload gives one. Fails with `NoRecord`, and changes
    /// nothing, where there is no such line.
    pub fn patch_inventory(
        &self,
        store: &mut MemoryStore,
        id: i32,
        inventory: PatchInventoryPayload,
    ) -> (result: Result<(), ApiError>)
        requires
            old(store)@.wf(),
        ensures
            final(store)@.wf(),
            patch_outcome(
                old(store)@,
                PatchWorkflow::FindInventory(id, inventory),
                result,
                final(store)@,
            ),
    {
        run_patch(store, PatchWorkflow::FindInventory(id, inventory))
    }
}

impl ReceiptService {
    /// The changes that `receipt` asks for on the receipt `id`.
    pub fn receipt_changes(&self, id: i32, receipt: &PatchReceiptPayload) -> (changes:
        UpdateEntityReceipt)
        ensures
            changes == receipt.changes(id),
    {
        UpdateEntityReceipt {
            id,
            transaction_date: receipt.transaction_date,
            is_inventory_taxed: receipt.is_inventory_taxed,
        }
    }

    /// Changes the date and the tax flag of the receipt `id`, each where
    /// the payload gives one. A receipt that does not exist is no error:
    /// nothing changes.
    pub fn patch_receipt(&self, store: &mut MemoryStore, id: i32, receipt: &PatchReceiptPayload) -> (result:
        Result<(), ApiError>)
        requires
            old(store)@.wf(),
        ensures
            final(store)@.wf(),
            patch_outcome(
                old(store)@,
                PatchWorkflow::Receipt(receipt.changes(id)),
                result,
                final(store)@,
            ),
    {
        run_patch(store, PatchWorkflow::Receipt(self.receipt_changes(id, receipt)))
    }
}

} // verus!
