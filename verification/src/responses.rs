//! What the services hand back to their callers.

use crate::decimal::Decimal;
use crate::errors::ApiError;
use crate::temporal::DateTime;
use vstd::prelude::*;

verus! {

/// One page of a listing, with the number of rows that the whole listing
/// has under the same filters.
#[derive(Debug, PartialEq)]
pub struct ServiceCollection<T> {
    pub partial_collection: Vec<T>,
    pub total_count: i64,
}

#[derive(Debug, PartialEq, Eq)]
pub struct ResponseCurrency {
    pub id: i32,
    pub name: String,
}

#[derive(Debug, PartialEq, Eq)]
pub struct ResponseCurrencyPayload {
    pub data: Option<ResponseCurrency>,
    pub error: Option<ApiError>,
}

#[derive(Debug, PartialEq, Eq)]
pub struct ResponseCurrenciesPayload {
    pub data: Option<Vec<ResponseCurrency>>,
    pub total: Option<i64>,
    pub error: Option<ApiError>,
}

#[derive(Debug, PartialEq, Eq)]
pub struct ResponseStore {
    pub id: i32,
    pub name: String,
    pub alias: Option<String>,
    pub branch: Option<String>,
    pub address: Option<String>,
}

#[derive(Debug, PartialEq, Eq)]
pub struct ResponseStorePayload {
    pub data: Option<ResponseStore>,
    pub error: Option<ApiError>,
}

#[derive(Debug, PartialEq, Eq)]
pub struct ResponseStoresPayload {
    pub data: Option<Vec<ResponseStore>>,
    pub total: Option<i64>,
    pub error: Option<ApiError>,
}

#[derive(Debug, PartialEq, Eq)]
pub struct ResponseProduct {
    pub id: i32,
    pub name: String,
    pub alias: Option<String>,
    pub specification_amount: Option<i32>,
    pub specification_unit: Option<String>,
    pub specification_others: Option<String>,
    pub brand: Option<String>,
}

#[derive(Debug, PartialEq, Eq)]
pub struct ResponseProductPayload {
    pub data: Option<ResponseProduct>,
    pub error: Option<ApiError>,
}

#[derive(Debug, PartialEq, Eq)]
pub struct ResponseProductsPayload {
    pub data: Option<Vec<ResponseProduct>>,
    pub total: Option<i64>,
    pub error: Option<ApiError>,
}

#[derive(Debug, PartialEq, Eq)]
pub struct ResponseInventory {
    pub id: i32,
    pub product: ResponseProduct,
    pub price: Decimal,
    pub quantity: i32,
}

#[derive(Debug, PartialEq, Eq)]
pub struct ResponseInventoryPayload {
    pub data: Option<ResponseInventory>,
    pub error: Option<ApiError>,
}

#[derive(Debug, PartialEq, Eq)]
pub struct ResponseInventoriesPayload {
    pub data: Option<Vec<ResponseInventory>>,
    pub total: Option<i64>,
    pub error: Option<ApiError>,
}

/// An inventory line with what its receipt says of the purchase.
#[derive(Debug, PartialEq, Eq)]
pub struct ResponseCustomizedInventory {
    pub id: i32,
    pub product: ResponseProduct,
    pub price: Decimal,
    pub receipt_id: i32,
    pub taxed: bool,
    pub transaction_date: DateTime,
    pub store_id: i32,
    pub store_name: String,
    pub store_alias: Option<String>,
    pub currency: ResponseCurrency,
}

#[derive(Debug, PartialEq, Eq)]
pub struct ResponseCustomizedInventoryPayload {
    pub data: Option<ResponseCustomizedInventory>,
    pub error: Option<ApiError>,
}

#[derive(Debug, PartialEq, Eq)]
pub struct ResponseCustomizedInventoriesPayload {
    pub data: Option<Vec<ResponseCustomizedInventory>>,
    pub total: Option<i64>,
    pub error: Option<ApiError>,
}

#[derive(Debug, PartialEq, Eq)]
pub struct ResponseReceipt {
    pub id: i32,
    pub transaction_date: DateTime,
    pub is_inventory_taxed: bool,
    pub currency: ResponseCurrency,
    pub store: ResponseStore,
    pub inventories: Vec<ResponseInventory>,
}

#[derive(Debug, PartialEq, Eq)]
pub struct ResponseReceiptPayload {
    pub data: Option<ResponseReceipt>,
    pub error: Option<ApiError>,
}

#[derive(Debug, PartialEq, Eq)]
pub struct ResponseReceiptsPayload {
    pub data: Option<Vec<ResponseReceipt>>,
    pub total: Option<i64>,
    pub error: Option<ApiError>,
}

/// The identifier of a receipt that was created.
#[derive(Clone, Copy, Debug, PartialEq, Eq, Structural)]
pub struct ResponseCreateReceipt {
    pub id: i32,
}

/// The acknowledgement of a submitted creation: the transaction token under
/// which the receipt can be looked up once the writer has created it.
#[derive(Debug, PartialEq, Eq)]
pub struct ResponseCreateReceiptPayload {
    pub data: Option<u128>,
    pub error: Option<ApiError>,
}

#[derive(Debug, PartialEq, Eq)]
pub struct LoginPayload {
    pub username: String,
    pub pwd: String,
}

#[derive(Debug, PartialEq, Eq)]
pub struct LoginResponse {
    pub success: bool,
    pub error: Option<String>,
}

impl ResponseCurrencyPayload {
    /// The body that answers with `result`: the data of a success, or the
    /// error of a failure.
    pub fn answer(result: Result<ResponseCurrency, ApiError>) -> (payload: Self)
        ensures
            payload.data == result.ok(),
            payload.error == result.err(),
    {
        match result {
            Ok(data) => Self { data: Some(data), error: None },
            Err(error) => Self { data: None, error: Some(error) },
        }
    }

    /// The body that acknowledges a request without data.
    pub fn empty() -> (payload: Self)
        ensures
            payload.data is None,
            payload.error is None,
    {
        Self { data: None, error: None }
    }
}

impl ResponseStorePayload {
    /// The body that answers with `result`: the data of a success, or the
    /// error of a failure.
    pub fn answer(result: Result<ResponseStore, ApiError>) -> (payload: Self)
        ensures
            payload.data == result.ok(),
            payload.error == result.err(),
    {
        match result {
            Ok(data) => Self { data: Some(data), error: None },
            Err(error) => Self { data: None, error: Some(error) },
        }
    }

    /// The body that acknowledges a request without data.
    pub fn empty() -> (payload: Self)
        ensures
            payload.data is None,
            payload.error is None,
    {
        Self { data: None, error: None }
    }
}

impl ResponseProductPayload {
    /// The body that answers with `result`: the data of a success, or the
    /// error of a failure.
    pub fn answer(result: Result<ResponseProduct, ApiError>) -> (payload: Self)
        ensures
            payload.data == result.ok(),
            payload.error == result.err(),
    {
        match result {
            Ok(data) => Self { data: Some(data), error: None },
            Err(error) => Self { data: None, error: Some(error) },
        }
    }

    /// The body that acknowledges a request without data.
    pub fn empty() -> (payload: Self)
        ensures
            payload.data is None,
            payload.error is None,
    {
        Self { data: None, error: None }
    }
}

impl ResponseInventoryPayload {
    /// The body that answers with `result`: the data of a success, or the
    /// error of a failure.
    pub fn answer(result: Result<ResponseInventory, ApiError>) -> (payload: Self)
        ensures
            payload.data == result.ok(),
            payload.error == result.err(),
    {
        match result {
            Ok(data) => Self { data: Some(data), error: None },
            Err(error) => Self { data: None, error: Some(error) },
        }
    }

    /// The body that acknowledges a request without data.
    pub fn empty() -> (payload: Self)
        ensures
            payload.data is None,
            payload.error is None,
    {
        Self { data: None, error: None }
    }
}

impl ResponseCustomizedInventoryPayload {
    /// The body that answers with `result`: the data of a success, or the
    /// error of a failure.
    pub fn answer(result: Result<ResponseCustomizedInventory, ApiError>) -> (payload: Self)
        ensures
            payload.data == result.ok(),
            payload.error == result.err(),
    {
        match result {
            Ok(data) => Self { data: Some(data), error: None },
            Err(error) => Self { data: None, error: Some(error) },
        }
    }
}

impl ResponseReceiptPayload {
    /// The body that answers with `result`: the data of a success, or the
    /// error of a failure.
    pub fn answer(result: Result<ResponseReceipt, ApiError>) -> (payload: Self)
        ensures
            payload.data == result.ok(),
            payload.error == result.err(),
    {
        match result {
            Ok(data) => Self { data: Some(data), error: None },
            Err(error) => Self { data: None, error: Some(error) },
        }
    }

    /// The body that acknowledges a request without data.
    pub fn empty() -> (payload: Self)
        ensures
            payload.data is None,
            payload.error is None,
    {
        Self { data: None, error: None }
    }
}

impl ResponseCreateReceiptPayload {
    /// The body that answers with `result`: the data of a success, or the
    /// error of a failure.
    pub fn answer(result: Result<u128, ApiError>) -> (payload: Self)
        ensures
            payload.data == result.ok(),
            payload.error == result.err(),
    {
        match result {
            Ok(data) => Self { data: Some(data), error: None },
            Err(error) => Self { data: None, error: Some(error) },
        }
    }
}

impl ResponseCurrenciesPayload {
    /// The body that answers with `result`: the page and the total count
    /// of a success, or the error of a failure.
    pub fn answer(result: Result<ServiceCollection<ResponseCurrency>, ApiError>) -> (payload: Self)
        ensures
            match result {
                Ok(collection) => {
                    &&& payload.data == Some(collection.partial_collection)
                    &&& payload.total == Some(collection.total_count)
                    &&& payload.error is None
                },
                Err(error) => {
                    &&& payload.data is None
                    &&& payload.total is None
                    &&& payload.error == Some(error)
                },
            },
    {
        match result {
            Ok(collection) => Self {
                data: Some(collection.partial_collection),
                total: Some(collection.total_count),
                error: None,
            },
            Err(error) => Self { data: None, total: None, error: Some(error) },
        }
    }
}

impl ResponseStoresPayload {
    /// The body that answers with `result`: the page and the total count
    /// of a success, or the error of a failure.
    pub fn answer(result: Result<ServiceCollection<ResponseStore>, ApiError>) -> (payload: Self)
        ensures
            match result {
                Ok(collection) => {
                    &&& payload.data == Some(collection.partial_collection)
                    &&& payload.total == Some(collection.total_count)
                    &&& payload.error is None
                },
                Err(error) => {
                    &&& payload.data is None
                    &&& payload.total is None
                    &&& payload.error == Some(error)
                },
            },
    {
        match result {
            Ok(collection) => Self {
                data: Some(collection.partial_collection),
                total: Some(collection.total_count),
                error: None,
            },
            Err(error) => Self { data: None, total: None, error: Some(error) },
        }
    }
}

impl ResponseProductsPayload {
    /// The body that answers with `result`: the page and the total count
    /// of a success, or the error of a failure.
    pub fn answer(result: Result<ServiceCollection<ResponseProduct>, ApiError>) -> (payload: Self)
        ensures
            match result {
                Ok(collection) => {
                    &&& payload.data == Some(collection.partial_collection)
                    &&& payload.total == Some(collection.total_count)
                    &&& payload.error is None
                },
                Err(error) => {
                    &&& payload.data is None
                    &&& payload.total is None
                    &&& payload.error == Some(error)
                },
            },
    {
        match result {
            Ok(collection) => Self {
                data: Some(collection.partial_collection),
                total: Some(collection.total_count),
                error: None,
            },
            Err(error) => Self { data: None, total: None, error: Some(error) },
        }
    }
}

impl ResponseInventoriesPayload {
    /// The body that answers with `result`: the page and the total count
    /// of a success, or the error of a failure.
    pub fn answer(result: Result<ServiceCollection<ResponseInventory>, ApiError>) -> (payload: Self)
        ensures
            match result {
                Ok(collection) => {
                    &&& payload.data == Some(collection.partial_collection)
                    &&& payload.total == Some(collection.total_count)
                    &&& payload.error is None
                },
                Err(error) => {
                    &&& payload.data is None
                    &&& payload.total is None
                    &&& payload.error == Some(error)
                },
            },
    {
        match result {
            Ok(collection) => Self {
                data: Some(collection.partial_collection),
                total: Some(collection.total_count),
                error: None,
            },
            Err(error) => Self { data: None, total: None, error: Some(error) },
        }
    }
}

impl ResponseCustomizedInventoriesPayload {
    /// The body that answers with `result`: the page and the total count
    /// of a success, or the error of a failure.
    pub fn answer(result: Result<ServiceCollection<ResponseCustomizedInventory>, ApiError>) -> (payload: Self)
        ensures
            match result {
                Ok(collection) => {
                    &&& payload.data == Some(collection.partial_collection)
                    &&& payload.total == Some(collection.total_count)
                    &&& payload.error is None
                },
                Err(error) => {
                    &&& payload.data is None
                    &&& payload.total is None
                    &&& payload.error == Some(error)
                },
            },
    {
        match result {
            Ok(collection) => Self {
                data: Some(collection.partial_collection),
                total: Some(collection.total_count),
                error: None,
            },
            Err(error) => Self { data: None, total: None, error: Some(error) },
        }
    }
}

impl ResponseReceiptsPayload {
    /// The body that answers with `result`: the page and the total count
    /// of a success, or the error of a failure.
    pub fn answer(result: Result<ServiceCollection<ResponseReceipt>, ApiError>) -> (payload: Self)
        ensures
            match result {
                Ok(collection) => {
                    &&& payload.data == Some(collection.partial_collection)
                    &&& payload.total == Some(collection.total_count)
                    &&& payload.error is None
                },
                Err(error) => {
                    &&& payload.data is None
                    &&& payload.total is None
                    &&& payload.error == Some(error)
                },
            },
    {
        match result {
            Ok(collection) => Self {
                data: Some(collection.partial_collection),
                total: Some(collection.total_count),
                error: None,
            },
            Err(error) => Self { data: None, total: None, error: Some(error) },
        }
    }
}

} // verus!
