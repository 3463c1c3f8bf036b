//! The protocol between a workflow and the storage gateway: one request,
//! one reply.

use crate::entities::{
    EntityInventory, EntityReceipt, NewEntityCurrency, NewEntityInventory, NewEntityProduct,
    NewEntityReceipt, NewEntityStore, ProductAttributes, UpdateEntityCurrency,
    UpdateEntityProduct, UpdateEntityReceipt, UpdateEntityStore,
};
use crate::errors::ApiError;
use vstd::prelude::*;

verus! {

/// One call on the storage gateway.
#[derive(Debug, PartialEq, Eq)]
pub enum StoreRequest {
    /// Is there a currency with this identifier?
    CurrencyExistsById(i32),
    /// Is there a currency with this name?
    CurrencyExistsByName(String),
    /// Is there a store with this identifier?
    StoreExistsById(i32),
    /// Is there a store with this name and this branch? No branch asks for a
    /// store without one.
    StoreExistsByNameAndBranch(String, Option<String>),
    /// Is there a product with this identifier?
    ProductExistsById(i32),
    /// Is there a product with exactly these attributes?
    ProductExistsByName(ProductAttributes),
    InsertCurrency(NewEntityCurrency),
    InsertStore(NewEntityStore),
    InsertProduct(NewEntityProduct),
    InsertReceipt(NewEntityReceipt),
    InsertInventory(NewEntityInventory),
    /// Is there a receipt with this identifier?
    ReceiptExists(i32),
    /// The identifier and the product of each inventory line of a receipt.
    InventoryProductPairs(i32),
    /// Delete the inventory lines with these identifiers.
    DeleteInventories(Vec<i32>),
    /// Does no inventory line refer to this product?
    ProductUnreferenced(i32),
    /// Delete the products with these identifiers.
    DeleteProducts(Vec<i32>),
    /// The receipt with this identifier.
    FetchReceipt(i32),
    DeleteReceipt(i32),
    /// Does no receipt refer to this store?
    StoreUnreferenced(i32),
    DeleteStore(i32),
    /// Does no receipt refer to this currency?
    CurrencyUnreferenced(i32),
    DeleteCurrency(i32),
    UpdateCurrency(UpdateEntityCurrency),
    UpdateStore(UpdateEntityStore),
    UpdateProduct(UpdateEntityProduct),
    UpdateReceipt(UpdateEntityReceipt),
    /// The inventory line with this identifier.
    FetchInventory(i32),
    /// Overwrite the inventory line that has the identifier of this row.
    UpdateInventory(EntityInventory),
}

/// What the storage gateway answers.
#[derive(Debug, PartialEq, Eq)]
pub enum StoreReply {
    /// No connection to the store could be had.
    ConnectionBroken,
    /// The store rejected the request.
    Failed,
    /// The answer to a question.
    Flag(bool),
    /// The identifier of the row that was inserted.
    Id(i32),
    /// Pairs of an inventory line's identifier and its product's.
    Pairs(Vec<(i32, i32)>),
    Receipt(EntityReceipt),
    Inventory(EntityInventory),
    /// The change was made.
    Done,
}

impl StoreReply {
    /// The answer to a question: the flag, a broken connection, or `failed`
    /// for any other reply.
    pub open spec fn as_flag(self, failed: ApiError) -> Result<bool, ApiError> {
        match self {
            StoreReply::Flag(flag) => Ok(flag),
            StoreReply::ConnectionBroken => Err(ApiError::DatabaseConnectionBroken),
            _ => Err(failed),
        }
    }

    /// The answer to an insert: the new identifier, a broken connection, or
    /// `failed` for any other reply.
    pub open spec fn as_id(self, failed: ApiError) -> Result<i32, ApiError> {
        match self {
            StoreReply::Id(id) => Ok(id),
            StoreReply::ConnectionBroken => Err(ApiError::DatabaseConnectionBroken),
            _ => Err(failed),
        }
    }

    /// The answer to a change: done, a broken connection, or `failed` for any
    /// other reply.
    pub open spec fn as_done(self, failed: ApiError) -> Result<(), ApiError> {
        match self {
            StoreReply::Done => Ok(()),
            StoreReply::ConnectionBroken => Err(ApiError::DatabaseConnectionBroken),
            _ => Err(failed),
        }
    }

    pub fn flag(&self, failed: ApiError) -> (answer: Result<bool, ApiError>)
        ensures
            answer == self.as_flag(failed),
    {
        match self {
            StoreReply::Flag(flag) => Ok(*flag),
            StoreReply::ConnectionBroken => Err(ApiError::DatabaseConnectionBroken),
            _ => Err(failed),
        }
    }

    pub fn id(&self, failed: ApiError) -> (answer: Result<i32, ApiError>)
        ensures
            answer == self.as_id(failed),
    {
        match self {
            StoreReply::Id(id) => Ok(*id),
            StoreReply::ConnectionBroken => Err(ApiError::DatabaseConnectionBroken),
            _ => Err(failed),
        }
    }

    pub fn done(&self, failed: ApiError) -> (answer: Result<(), ApiError>)
        ensures
            answer == self.as_done(failed),
    {
        match self {
            StoreReply::Done => Ok(()),
            StoreReply::ConnectionBroken => Err(ApiError::DatabaseConnectionBroken),
            _ => Err(failed),
        }
    }
}

} // verus!
