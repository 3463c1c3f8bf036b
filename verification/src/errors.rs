//! Error kinds of the services and their externally visible status.

use crate::responses::LoginResponse;
use vstd::prelude::*;

verus! {

/// Failures outside the services: configuration and the login session.
#[derive(Debug, PartialEq)]
pub enum Error {
    ConfigMissingEnv(&'static str),
    LoginFailed,
    AuthFailNoAuthTokenCookie,
}

/// The status of a request that was served.
pub const STATUS_OK: u16 = 200;

/// The status of a command that was queued for the writer. It says nothing
/// of the command's outcome.
pub const STATUS_ACCEPTED: u16 = 202;

impl Error {
    /// The HTTP status under which the failure is reported: 401 for a
    /// failed login, 500 for every other failure.
    pub open spec fn http_status(self) -> u16 {
        if self is LoginFailed {
            401
        } else {
            500
        }
    }

    /// The status and the body with which the failure is answered.
    pub fn response(&self) -> (response: (u16, LoginResponse))
        ensures
            response.0 == self.http_status(),
            !response.1.success,
            response.1.error is Some,
            response.1.error->0@ == (if *self is LoginFailed {
                "LoginFailed"@
            } else {
                "GenericFailed"@
            }),
    {
        match self {
            Error::LoginFailed => (
                401,
                LoginResponse { success: false, error: Some(String::from_str("LoginFailed")) },
            ),
            _ => (
                500,
                LoginResponse { success: false, error: Some(String::from_str("GenericFailed")) },
            ),
        }
    }
}

/// What a service reports when an operation does not succeed.
#[derive(Clone, Copy, Debug, PartialEq, Eq, Structural)]
pub enum ApiError {
    Generic,
    InvalidParameter,
    NoRecord,
    DatabaseConnectionBroken,
    CurrencyInvalid,
    CurrencyIdNotExisted,
    CurrencyNameDuplicated,
    StoreInvalid,
    StoreIdNotExisted,
    StoreNameDuplicated,
    ProductInvalid,
    ProductIdNotExisted,
    ProductNameDuplicated,
    InsertCurrencyFailed,
    InsertStoreFailed,
    InsertProductFailed,
    InsertReceiptFailed,
    InsertInventoryFailed,
    UpdateCurrencyFailed,
    UpdateStoreFailed,
    UpdateProductFailed,
    UpdateReceiptFailed,
    UpdateInventoryFailed,
    DeleteReceiptIdNotExisted,
    DeleteReceiptAssociatedEntryFailed,
    DeleteReceiptEntryFailed,
    DeleteReceiptRelatedEntryFailed,
}

impl ApiError {
    /// A reference in a payload names neither an identifier nor attributes.
    pub open spec fn is_validation(self) -> bool {
        self is CurrencyInvalid || self is StoreInvalid || self is ProductInvalid
    }

    /// An identifier that does not exist, or attributes that already do.
    pub open spec fn is_resolution_conflict(self) -> bool {
        ||| self is CurrencyIdNotExisted
        ||| self is CurrencyNameDuplicated
        ||| self is StoreIdNotExisted
        ||| self is StoreNameDuplicated
        ||| self is ProductIdNotExisted
        ||| self is ProductNameDuplicated
    }

    /// The store rejected an insert.
    pub open spec fn is_insert_failure(self) -> bool {
        ||| self is InsertCurrencyFailed
        ||| self is InsertStoreFailed
        ||| self is InsertProductFailed
        ||| self is InsertReceiptFailed
        ||| self is InsertInventoryFailed
    }

    /// The store rejected an update.
    pub open spec fn is_update_failure(self) -> bool {
        ||| self is UpdateCurrencyFailed
        ||| self is UpdateStoreFailed
        ||| self is UpdateProductFailed
        ||| self is UpdateReceiptFailed
        ||| self is UpdateInventoryFailed
    }

    /// The message that describes the error kind to a reader.
    pub open spec fn text(self) -> Seq<char> {
        match self {
            ApiError::Generic => "Generic error"@,
            ApiError::InvalidParameter => "Invalid parameter"@,
            ApiError::NoRecord => "Record not found"@,
            ApiError::DatabaseConnectionBroken => "Database disconnect"@,
            ApiError::CurrencyInvalid => "Both id and name are none"@,
            ApiError::CurrencyIdNotExisted => "Currency id is not existed"@,
            ApiError::CurrencyNameDuplicated => "Currency name is duplicated"@,
            ApiError::StoreInvalid => "Both id and name are none"@,
            ApiError::StoreIdNotExisted => "Store id is not existed"@,
            ApiError::StoreNameDuplicated => "Store name is duplicated"@,
            ApiError::ProductInvalid => "Both id and name are none"@,
            ApiError::ProductIdNotExisted => "Product id is not existed"@,
            ApiError::ProductNameDuplicated => "Product name is duplicated"@,
            ApiError::InsertCurrencyFailed => "Insert a new currency is failed"@,
            ApiError::InsertStoreFailed => "Insert a new store is failed"@,
            ApiError::InsertProductFailed => "Insert a new product is failed"@,
            ApiError::InsertReceiptFailed => "Insert a new receipt is failed"@,
            ApiError::InsertInventoryFailed => "Insert a new inventory is failed"@,
            ApiError::UpdateCurrencyFailed => "Update a new currency is failed"@,
            ApiError::UpdateStoreFailed => "Update a new store is failed"@,
            ApiError::UpdateProductFailed => "Update a new product is failed"@,
            ApiError::UpdateReceiptFailed => "Update a new receipt is failed"@,
            ApiError::UpdateInventoryFailed => "Update a new inventory is failed"@,
            ApiError::DeleteReceiptIdNotExisted => "Delete a receipt whose id is not existed"@,
            ApiError::DeleteReceiptAssociatedEntryFailed => "Delete data which is associated to a receipt failed"@,
            ApiError::DeleteReceiptEntryFailed => "Delete a receipt failed"@,
            ApiError::DeleteReceiptRelatedEntryFailed => "Delete data which is related to a receipt failed"@,
        }
    }

    /// The HTTP status under which the error kind is reported.
    pub open spec fn http_status(self) -> u16 {
        if self is InvalidParameter || self.is_validation() || self.is_resolution_conflict() {
            400
        } else if self is NoRecord {
            404
        } else if self is Generic || self is DeleteReceiptAssociatedEntryFailed {
            406
        } else if self.is_insert_failure() {
            409
        } else if self is DeleteReceiptIdNotExisted || self is DeleteReceiptRelatedEntryFailed {
            410
        } else if self.is_update_failure() || self is DeleteReceiptEntryFailed {
            422
        } else {
            500
        }
    }

    /// The message that describes the error kind to a reader.
    pub fn message(&self) -> (message: String)
        ensures
            message@ == self.text(),
    {
        match self {
            ApiError::Generic => String::from_str("Generic error"),
            ApiError::InvalidParameter => String::from_str("Invalid parameter"),
            ApiError::NoRecord => String::from_str("Record not found"),
            ApiError::DatabaseConnectionBroken => String::from_str("Database disconnect"),
            ApiError::CurrencyInvalid => String::from_str("Both id and name are none"),
            ApiError::CurrencyIdNotExisted => String::from_str("Currency id is not existed"),
            ApiError::CurrencyNameDuplicated => String::from_str("Currency name is duplicated"),
            ApiError::StoreInvalid => String::from_str("Both id and name are none"),
            ApiError::StoreIdNotExisted => String::from_str("Store id is not existed"),
            ApiError::StoreNameDuplicated => String::from_str("Store name is duplicated"),
            ApiError::ProductInvalid => String::from_str("Both id and name are none"),
            ApiError::ProductIdNotExisted => String::from_str("Product id is not existed"),
            ApiError::ProductNameDuplicated => String::from_str("Product name is duplicated"),
            ApiError::InsertCurrencyFailed => String::from_str("Insert a new currency is failed"),
            ApiError::InsertStoreFailed => String::from_str("Insert a new store is failed"),
            ApiError::InsertProductFailed => String::from_str("Insert a new product is failed"),
            ApiError::InsertReceiptFailed => String::from_str("Insert a new receipt is failed"),
            ApiError::InsertInventoryFailed => String::from_str("Insert a new inventory is failed"),
            ApiError::UpdateCurrencyFailed => String::from_str("Update a new currency is failed"),
            ApiError::UpdateStoreFailed => String::from_str("Update a new store is failed"),
            ApiError::UpdateProductFailed => String::from_str("Update a new product is failed"),
            ApiError::UpdateReceiptFailed => String::from_str("Update a new receipt is failed"),
            ApiError::UpdateInventoryFailed => String::from_str("Update a new inventory is failed"),
            ApiError::DeleteReceiptIdNotExisted => String::from_str("Delete a receipt whose id is not existed"),
            ApiError::DeleteReceiptAssociatedEntryFailed => String::from_str("Delete data which is associated to a receipt failed"),
            ApiError::DeleteReceiptEntryFailed => String::from_str("Delete a receipt failed"),
            ApiError::DeleteReceiptRelatedEntryFailed => String::from_str("Delete data which is related to a receipt failed"),
        }
    }
}

/// Maps error kinds to HTTP status codes.
pub struct ApiErrorConventerService {}

impl ApiErrorConventerService {
    pub fn new() -> (service: Self) {
        Self {  }
    }

    /// The status code for the result of a read: 200 for a success, and
    /// the status of the error for a failure.
    pub fn get_http_status_from_result<T>(&self, result: &Result<T, ApiError>) -> (status: u16)
        ensures
            status == match result {
                Ok(_) => STATUS_OK,
                Err(error) => error.http_status(),
            },
    {
        match result {
            Ok(_) => STATUS_OK,
            Err(error) => self.get_http_status_from_api_error(error),
        }
    }

    /// The status code for `error`: 400 for a bad parameter, an invalid
    /// reference or a resolution conflict, 404 for a missing record, 409 for
    /// a rejected insert, 422 for a rejected update or receipt deletion, 410
    /// and 406 for the other failures of a deletion, and 500 for a broken
    /// connection.
    pub fn get_http_status_from_api_error(&self, error: &ApiError) -> (status: u16)
        ensures
            status == error.http_status(),
            100 <= status < 600,
    {
        match error {
            ApiError::DatabaseConnectionBroken => 500,
            ApiError::NoRecord => 404,
            ApiError::InvalidParameter => 400,
            ApiError::Generic => 406,
            ApiError::CurrencyInvalid => 400,
            ApiError::CurrencyIdNotExisted => 400,
            ApiError::CurrencyNameDuplicated => 400,
            ApiError::StoreInvalid => 400,
            ApiError::StoreIdNotExisted => 400,
            ApiError::StoreNameDuplicated => 400,
            ApiError::ProductInvalid => 400,
            ApiError::ProductIdNotExisted => 400,
            ApiError::ProductNameDuplicated => 400,
            ApiError::InsertCurrencyFailed => 409,
            ApiError::InsertStoreFailed => 409,
            ApiError::InsertProductFailed => 409,
            ApiError::InsertReceiptFailed => 409,
            ApiError::InsertInventoryFailed => 409,
            ApiError::UpdateCurrencyFailed => 422,
            ApiError::UpdateStoreFailed => 422,
            ApiError::UpdateProductFailed => 422,
            ApiError::UpdateReceiptFailed => 422,
            ApiError::UpdateInventoryFailed => 422,
            ApiError::DeleteReceiptIdNotExisted => 410,
            ApiError::DeleteReceiptAssociatedEntryFailed => 406,
            ApiError::DeleteReceiptEntryFailed => 422,
            ApiError::DeleteReceiptRelatedEntryFailed => 410,
        }
    }
}

} // verus!
