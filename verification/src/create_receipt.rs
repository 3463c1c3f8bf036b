//! Creation of a receipt with its currency, store, products and inventory
//! lines.
//!
//! Every reference of the payload is checked before anything is written: a
//! reference by identifier must name an existing row, a reference by
//! attributes must describe a row that does not exist yet. Then the missing
//! rows, the receipt and its lines are inserted, one request at a time.

use crate::database::{has_key, Database};
use crate::memory_store::MemoryStore;
use crate::entities::{NewEntityInventory, NewEntityReceipt};
use crate::errors::ApiError;
use crate::gateway::{StoreReply, StoreRequest};
use crate::payloads::{
    CreateCurrencyInReceiptPayload, CreateInventoryInReceiptPayload,
    CreateProductInReceiptPayload, CreateReceiptPayload, CreateStoreInReceiptPayload,
};
use crate::responses::ResponseCreateReceipt;
use crate::text::{clone_text, text_view};
use crate::validators::{classify, FormDataValidatorService, FormRelationshipModelStatus};
use vstd::prelude::*;

verus! {

/// The question that settles a currency reference, where it is valid.
pub open spec fn currency_question(currency: CreateCurrencyInReceiptPayload) -> Option<
    StoreRequest,
> {
    match (currency.id, currency.name) {
        (Some(id), _) => Some(StoreRequest::CurrencyExistsById(id)),
        (None, Some(name)) => Some(StoreRequest::CurrencyExistsByName(name)),
        (None, None) => None,
    }
}

/// The question that settles a store reference, where it is valid.
pub open spec fn store_question(store: CreateStoreInReceiptPayload) -> Option<StoreRequest> {
    match (store.id, store.name) {
        (Some(id), _) => Some(StoreRequest::StoreExistsById(id)),
        (None, Some(name)) => Some(StoreRequest::StoreExistsByNameAndBranch(name, store.branch)),
        (None, None) => None,
    }
}

/// The question that settles a product reference, where it is valid.
pub open spec fn product_question(product: CreateProductInReceiptPayload) -> Option<
    StoreRequest,
> {
    match (product.id, product.attributes()) {
        (Some(id), _) => Some(StoreRequest::ProductExistsById(id)),
        (None, Some(attributes)) => Some(StoreRequest::ProductExistsByName(attributes)),
        (None, None) => None,
    }
}

/// What the answer to a reference's question means: an identifier must be
/// found, attributes must not be.
pub open spec fn resolution(
    status: FormRelationshipModelStatus,
    answer: Result<bool, ApiError>,
    invalid: ApiError,
    missing: ApiError,
    duplicate: ApiError,
) -> Result<FormRelationshipModelStatus, ApiError> {
    match status {
        FormRelationshipModelStatus::Absent => Err(invalid),
        FormRelationshipModelStatus::Id => match answer {
            Err(error) => Err(error),
            Ok(found) => if found {
                Ok(status)
            } else {
                Err(missing)
            },
        },
        FormRelationshipModelStatus::ItemName => match answer {
            Err(error) => Err(error),
            Ok(found) => if found {
                Err(duplicate)
            } else {
                Ok(status)
            },
        },
    }
}

/// The verdict on a currency reference, given the store's reply to its
/// question.
pub open spec fn currency_validated(
    currency: CreateCurrencyInReceiptPayload,
    reply: StoreReply,
) -> Result<FormRelationshipModelStatus, ApiError> {
    resolution(
        classify(currency.id, currency.name),
        reply.as_flag(ApiError::CurrencyIdNotExisted),
        ApiError::CurrencyInvalid,
        ApiError::CurrencyIdNotExisted,
        ApiError::CurrencyNameDuplicated,
    )
}

/// The verdict on a store reference, given the store's reply to its
/// question.
pub open spec fn store_validated(store: CreateStoreInReceiptPayload, reply: StoreReply) -> Result<
    FormRelationshipModelStatus,
    ApiError,
> {
    resolution(
        classify(store.id, store.name),
        reply.as_flag(
            if store.id is Some {
                ApiError::StoreIdNotExisted
            } else {
                ApiError::StoreNameDuplicated
            },
        ),
        ApiError::StoreInvalid,
        ApiError::StoreIdNotExisted,
        ApiError::StoreNameDuplicated,
    )
}

/// The verdict on a product reference, given the store's reply to its
/// question.
pub open spec fn product_validated(
    product: CreateProductInReceiptPayload,
    reply: StoreReply,
) -> Result<FormRelationshipModelStatus, ApiError> {
    resolution(
        classify(product.id, product.name),
        reply.as_flag(ApiError::ProductIdNotExisted),
        ApiError::ProductInvalid,
        ApiError::ProductIdNotExisted,
        ApiError::ProductNameDuplicated,
    )
}

/// The verdict on a currency reference against the contents of the store:
/// the error that rejects it, if any.
pub open spec fn currency_verdict(db: Database, currency: CreateCurrencyInReceiptPayload) -> Option<
    ApiError,
> {
    match (currency.id, currency.name) {
        (Some(id), _) => if has_key(db.currencies, id) {
            None
        } else {
            Some(ApiError::CurrencyIdNotExisted)
        },
        (None, Some(name)) => if db.currency_named(name@) {
            Some(ApiError::CurrencyNameDuplicated)
        } else {
            None
        },
        (None, None) => Some(ApiError::CurrencyInvalid),
    }
}

/// The verdict on a store reference against the contents of the store. A
/// description is a duplicate of the store with its name and its branch; a
/// description without a branch is one of the store of its name that has no
/// branch, and of no other.
pub open spec fn store_verdict(db: Database, store: CreateStoreInReceiptPayload) -> Option<
    ApiError,
> {
    match (store.id, store.name) {
        (Some(id), _) => if has_key(db.stores, id) {
            None
        } else {
            Some(ApiError::StoreIdNotExisted)
        },
        (None, Some(name)) => if db.store_matching(name@, text_view(store.branch)) {
            Some(ApiError::StoreNameDuplicated)
        } else {
            None
        },
        (None, None) => Some(ApiError::StoreInvalid),
    }
}

/// The verdict on a product reference against the contents of the store. A
/// description is a duplicate of the product that has its name, its brand
/// and the three parts of its specification, absent where they are absent.
pub open spec fn product_verdict(db: Database, product: CreateProductInReceiptPayload) -> Option<
    ApiError,
> {
    match (product.id, product.attributes()) {
        (Some(id), _) => if has_key(db.products, id) {
            None
        } else {
            Some(ApiError::ProductIdNotExisted)
        },
        (None, Some(attributes)) => if db.product_described(attributes) {
            Some(ApiError::ProductNameDuplicated)
        } else {
            None
        },
        (None, None) => Some(ApiError::ProductInvalid),
    }
}

/// The verdict on the products of the lines: that on the first line whose
/// product is rejected.
pub open spec fn lines_verdict(db: Database, lines: Seq<CreateInventoryInReceiptPayload>) -> Option<
    ApiError,
>
    decreases lines.len(),
{
    if lines.len() == 0 {
        None
    } else {
        match lines_verdict(db, lines.drop_last()) {
            Some(error) => Some(error),
            None => product_verdict(db, lines.last().product),
        }
    }
}

/// The verdict on a payload: that on its currency, else that on its store,
/// else that on its lines. Every reference is judged against the store as it
/// is before the creation.
pub open spec fn create_verdict(db: Database, form: CreateReceiptPayload) -> Option<ApiError> {
    match currency_verdict(db, form.currency) {
        Some(error) => Some(error),
        None => match store_verdict(db, form.store) {
            Some(error) => Some(error),
            None => lines_verdict(db, form.inventories@),
        },
    }
}

/// The store and the currency's identifier once the reference is resolved:
/// an identifier is reused, a description is inserted.
pub open spec fn resolve_currency(db: Database, currency: CreateCurrencyInReceiptPayload) -> (
    Database,
    i32,
) {
    match currency.id {
        Some(id) => (db, id),
        None => (db.insert_currency(currency.described().unwrap()), db.next_currency_id),
    }
}

/// The store and the store row's identifier once the reference is resolved.
pub open spec fn resolve_store(db: Database, store: CreateStoreInReceiptPayload) -> (Database, i32) {
    match store.id {
        Some(id) => (db, id),
        None => (db.insert_store(store.described().unwrap()), db.next_store_id),
    }
}

/// The store and the product's identifier once the reference is resolved.
pub open spec fn resolve_product(db: Database, product: CreateProductInReceiptPayload) -> (
    Database,
    i32,
) {
    match product.id {
        Some(id) => (db, id),
        None => (db.insert_product(product.described().unwrap()), db.next_product_id),
    }
}

/// The store after one line of the receipt `receipt` is written: its
/// product is resolved, then the line is inserted.
pub open spec fn add_line(db: Database, line: CreateInventoryInReceiptPayload, receipt: i32)
    -> Database {
    let (with_product, product) = resolve_product(db, line.product);
    with_product.insert_inventory(
        NewEntityInventory {
            price: line.price,
            quantity: line.quantity,
            product_id: product,
            receipt_id: receipt,
        },
    )
}

/// The store after the lines of the receipt `receipt` are written, in their
/// order.
pub open spec fn add_lines(
    db: Database,
    lines: Seq<CreateInventoryInReceiptPayload>,
    receipt: i32,
) -> Database
    decreases lines.len(),
{
    if lines.len() == 0 {
        db
    } else {
        add_line(add_lines(db, lines.drop_last(), receipt), lines.last(), receipt)
    }
}

/// The receipt row that a payload describes, once its currency and store are
/// resolved.
pub open spec fn receipt_of(form: CreateReceiptPayload, currency: i32, store: i32)
    -> NewEntityReceipt {
    NewEntityReceipt {
        transaction_date: form.transaction_date,
        is_inventory_taxed: form.is_inventory_taxed,
        currency_id: currency,
        store_id: store,
        transaction_id: form.transaction_id,
    }
}

/// The store with the receipt row of `form` and the currency and store rows
/// that it needed, before any line is written.
pub open spec fn with_receipt(db: Database, form: CreateReceiptPayload) -> Database {
    let (with_currency, currency) = resolve_currency(db, form.currency);
    let (with_store, store) = resolve_store(with_currency, form.store);
    with_store.insert_receipt(receipt_of(form, currency, store))
}

/// The store after `form` is created: the currency and the store are
/// resolved, the receipt is inserted with the store's next receipt
/// identifier, and the lines are written.
pub open spec fn created(db: Database, form: CreateReceiptPayload) -> Database {
    add_lines(with_receipt(db, form), form.inventories@, db.next_receipt_id)
}

/// Whether a line describes its product instead of naming its identifier.
pub open spec fn describes_product() -> spec_fn(CreateInventoryInReceiptPayload) -> bool {
    |line: CreateInventoryInReceiptPayload| line.product.id is None
}

/// How many of the lines describe a product that is to be inserted.
pub open spec fn new_products(lines: Seq<CreateInventoryInReceiptPayload>) -> nat {
    lines.filter(describes_product()).len()
}

/// Whether every table has identifiers left for the rows that the creation
/// of `form` inserts.
pub open spec fn room_to_create(db: Database, form: CreateReceiptPayload) -> bool {
    &&& form.currency.id is None ==> db.next_currency_id < i32::MAX
    &&& form.store.id is None ==> db.next_store_id < i32::MAX
    &&& db.next_receipt_id < i32::MAX
    &&& db.next_product_id + new_products(form.inventories@) <= i32::MAX
    &&& db.next_inventory_id + form.inventories@.len() <= i32::MAX
}

/// A currency reference resolved on a store that may have run out of
/// identifiers: the store and the currency's identifier, or the failed
/// insert.
pub open spec fn try_currency(db: Database, currency: CreateCurrencyInReceiptPayload) -> (
    Database,
    Result<i32, ApiError>,
) {
    if currency.id is None && db.next_currency_id == i32::MAX {
        (db, Err(ApiError::InsertCurrencyFailed))
    } else {
        (resolve_currency(db, currency).0, Ok(resolve_currency(db, currency).1))
    }
}

/// A store reference resolved on a store that may have run out of
/// identifiers.
pub open spec fn try_store(db: Database, store: CreateStoreInReceiptPayload) -> (
    Database,
    Result<i32, ApiError>,
) {
    if store.id is None && db.next_store_id == i32::MAX {
        (db, Err(ApiError::InsertStoreFailed))
    } else {
        (resolve_store(db, store).0, Ok(resolve_store(db, store).1))
    }
}

/// One line written to a store that may have run out of identifiers: the
/// store, and the insert that failed, if one did. A product that was
/// inserted stays when the insert of its line fails.
pub open spec fn write_line(db: Database, line: CreateInventoryInReceiptPayload, receipt: i32) -> (
    Database,
    Option<ApiError>,
) {
    if line.product.id is None && db.next_product_id == i32::MAX {
        (db, Some(ApiError::InsertProductFailed))
    } else if resolve_product(db, line.product).0.next_inventory_id == i32::MAX {
        (resolve_product(db, line.product).0, Some(ApiError::InsertInventoryFailed))
    } else {
        (add_line(db, line, receipt), None)
    }
}

/// The lines written in their order, up to the first insert that fails.
pub open spec fn write_lines(
    db: Database,
    lines: Seq<CreateInventoryInReceiptPayload>,
    receipt: i32,
) -> (Database, Option<ApiError>)
    decreases lines.len(),
{
    if lines.len() == 0 {
        (db, None)
    } else {
        let (written, failure) = write_lines(db, lines.drop_last(), receipt);
        if failure is Some {
            (written, failure)
        } else {
            write_line(written, lines.last(), receipt)
        }
    }
}

/// The store after an accepted payload is written, and the result of the
/// creation. The rows are inserted in this order: the currency and the
/// store where they are described, the receipt, and for each line its
/// product where it is described and then the line. The first insert that
/// fails ends the creation; what was inserted before it stays.
pub open spec fn written(db: Database, form: CreateReceiptPayload) -> (
    Database,
    Result<ResponseCreateReceipt, ApiError>,
) {
    let (with_currency, currency) = try_currency(db, form.currency);
    let (with_store, store) = try_store(with_currency, form.store);
    if currency is Err {
        (with_currency, Err(currency->Err_0))
    } else if store is Err {
        (with_store, Err(store->Err_0))
    } else if with_store.next_receipt_id == i32::MAX {
        (with_store, Err(ApiError::InsertReceiptFailed))
    } else {
        let receipt = with_store.next_receipt_id;
        let (with_lines, failure) = write_lines(
            with_store.insert_receipt(receipt_of(form, currency->Ok_0, store->Ok_0)),
            form.inventories@,
            receipt,
        );
        match failure {
            Some(error) => (with_lines, Err(error)),
            None => (with_lines, Ok(ResponseCreateReceipt { id: receipt })),
        }
    }
}

/// What the creation of `form` in the store `before` comes to: a rejected
/// payload is reported and nothing is written; an accepted one is written
/// as [`written`] says.
pub open spec fn create_outcome(
    before: Database,
    form: CreateReceiptPayload,
    result: Result<ResponseCreateReceipt, ApiError>,
    after: Database,
) -> bool {
    match create_verdict(before, form) {
        Some(error) => result == Err::<ResponseCreateReceipt, ApiError>(error) && after == before,
        None => (after, result) == written(before, form),
    }
}

/// Creation, deletion and change of receipts.
pub struct ReceiptService {}

impl ReceiptService {
    pub fn new() -> (service: Self) {
        Self {  }
    }

    /// The verdict on a currency reference, given the store's reply to its
    /// question: `CurrencyInvalid` for a reference without identifier and
    /// name, `CurrencyIdNotExisted` for an identifier that was not found,
    /// `CurrencyNameDuplicated` for a name that was.
    pub fn validate_currency(
        &self,
        currency: &CreateCurrencyInReceiptPayload,
        reply: &StoreReply,
    ) -> (verdict: Result<FormRelationshipModelStatus, ApiError>)
        ensures
            verdict == currency_validated(*currency, *reply),
    {
        let status = FormDataValidatorService::new().validate_relationship_model(currency);
        if status == FormRelationshipModelStatus::Absent {
            return Err(ApiError::CurrencyInvalid);
        }
        let found = reply.flag(ApiError::CurrencyIdNotExisted)?;
        if status == FormRelationshipModelStatus::Id {
            if !found {
                return Err(ApiError::CurrencyIdNotExisted);
            }
        } else if found {
            return Err(ApiError::CurrencyNameDuplicated);
        }
        Ok(status)
    }

    /// The verdict on a store reference, given the store's reply to its
    /// question: `StoreInvalid` for a reference without identifier and
    /// name, `StoreIdNotExisted` for an identifier that was not found,
    /// `StoreNameDuplicated` for a name and branch that were.
    pub fn validate_store(&self, store: &CreateStoreInReceiptPayload, reply: &StoreReply) -> (verdict:
        Result<FormRelationshipModelStatus, ApiError>)
        ensures
            verdict == store_validated(*store, *reply),
    {
        let status = FormDataValidatorService::new().validate_relationship_model(store);
        if status == FormRelationshipModelStatus::Absent {
            return Err(ApiError::StoreInvalid);
        }
        if status == FormRelationshipModelStatus::Id {
            let found = reply.flag(ApiError::StoreIdNotExisted)?;
            if !found {
                return Err(ApiError::StoreIdNotExisted);
            }
        } else {
            let found = reply.flag(ApiError::StoreNameDuplicated)?;
            if found {
                return Err(ApiError::StoreNameDuplicated);
            }
        }
        Ok(status)
    }

    /// The verdict on a product reference, given the store's reply to its
    /// question: `ProductInvalid` for a reference without identifier and
    /// name, `ProductIdNotExisted` for an identifier that was not found,
    /// `ProductNameDuplicated` for attributes that were.
    pub fn validate_product(
        &self,
        product: &CreateProductInReceiptPayload,
        reply: &StoreReply,
    ) -> (verdict: Result<FormRelationshipModelStatus, ApiError>)
        ensures
            verdict == product_validated(*product, *reply),
    {
        let status = FormDataValidatorService::new().validate_relationship_model(product);
        if status == FormRelationshipModelStatus::Absent {
            return Err(ApiError::ProductInvalid);
        }
        let found = reply.flag(ApiError::ProductIdNotExisted)?;
        if status == FormRelationshipModelStatus::Id {
            if !found {
                return Err(ApiError::ProductIdNotExisted);
            }
        } else if found {
            return Err(ApiError::ProductNameDuplicated);
        }
        Ok(status)
    }
}

/// Where a creation stands: which reply it waits for.
#[derive(Clone, Copy, Debug, PartialEq, Eq)]
pub enum CreatePhase {
    CheckCurrency,
    CheckStore,
    /// Checking the product of the line with this index.
    CheckProduct(usize),
    InsertCurrency,
    InsertStore,
    InsertReceipt,
    /// Inserting the product of the line with this index.
    InsertProduct(usize),
    /// Inserting the line with this index.
    InsertInventory(usize),
}

/// A creation in progress: the payload, the phase, and the identifiers that
/// are resolved so far.
pub struct CreateReceiptWorkflow {
    form: CreateReceiptPayload,
    phase: CreatePhase,
    currency_id: i32,
    store_id: i32,
    receipt_id: i32,
    product_id: i32,
}

/// A creation after a step: waiting for the reply to its next request, or
/// finished with its result.
pub enum CreateStep {
    Pending(CreateReceiptWorkflow),
    Finished(Result<ResponseCreateReceipt, ApiError>),
}

/// A creation in progress, as a mathematical value.
pub struct CreateState {
    /// The payload that is being created.
    pub form: CreateReceiptPayload,
    pub phase: CreatePhase,
    /// The currency of the receipt, once it is resolved.
    pub currency_id: i32,
    /// The store of the receipt, once it is resolved.
    pub store_id: i32,
    /// The receipt, once it is inserted.
    pub receipt_id: i32,
    /// The product of the line that is being inserted, once it is resolved.
    pub product_id: i32,
}

/// A creation after a step, as a mathematical value.
pub enum CreateProgress {
    Pending(CreateState),
    Finished(Result<ResponseCreateReceipt, ApiError>),
}

impl View for CreateReceiptWorkflow {
    type V = CreateState;

    closed spec fn view(&self) -> CreateState {
        CreateState {
            form: self.form,
            phase: self.phase,
            currency_id: self.currency_id,
            store_id: self.store_id,
            receipt_id: self.receipt_id,
            product_id: self.product_id,
        }
    }
}

impl View for CreateStep {
    type V = CreateProgress;

    open spec fn view(&self) -> CreateProgress {
        match self {
            CreateStep::Pending(workflow) => CreateProgress::Pending(workflow@),
            CreateStep::Finished(result) => CreateProgress::Finished(*result),
        }
    }
}

impl CreateState {
    /// The state is one that a creation can be in: the line that a phase
    /// names exists, and the reference that it asks about or inserts carries
    /// what the request needs.
    pub open spec fn wf(self) -> bool {
        let lines = self.form.inventories@;
        match self.phase {
            CreatePhase::CheckCurrency => currency_question(self.form.currency) is Some,
            CreatePhase::CheckStore => store_question(self.form.store) is Some,
            CreatePhase::CheckProduct(i) => i < lines.len() && product_question(
                lines[i as int].product,
            ) is Some,
            CreatePhase::InsertCurrency => self.form.currency.name is Some,
            CreatePhase::InsertStore => self.form.store.name is Some,
            CreatePhase::InsertReceipt => true,
            CreatePhase::InsertProduct(i) => i < lines.len() && lines[i as int].product.name is Some,
            CreatePhase::InsertInventory(i) => i < lines.len(),
        }
    }

    /// An upper bound on the requests that are still to come.
    pub open spec fn rank(self) -> nat {
        let n = self.form.inventories@.len() as int;
        (match self.phase {
            CreatePhase::CheckCurrency => 3 * n + 5,
            CreatePhase::CheckStore => 3 * n + 4,
            CreatePhase::CheckProduct(i) => 3 * n + 3 - i,
            CreatePhase::InsertCurrency => 2 * n + 3,
            CreatePhase::InsertStore => 2 * n + 2,
            CreatePhase::InsertReceipt => 2 * n + 1,
            CreatePhase::InsertProduct(i) => 2 * (n - i),
            CreatePhase::InsertInventory(i) => 2 * (n - i) - 1,
        }) as nat
    }

    /// The request whose reply the creation waits for.
    pub open spec fn pending(self) -> StoreRequest {
        let lines = self.form.inventories@;
        match self.phase {
            CreatePhase::CheckCurrency => currency_question(self.form.currency).unwrap(),
            CreatePhase::CheckStore => store_question(self.form.store).unwrap(),
            CreatePhase::CheckProduct(i) => product_question(lines[i as int].product).unwrap(),
            CreatePhase::InsertCurrency => StoreRequest::InsertCurrency(
                self.form.currency.described().unwrap(),
            ),
            CreatePhase::InsertStore => StoreRequest::InsertStore(
                self.form.store.described().unwrap(),
            ),
            CreatePhase::InsertReceipt => StoreRequest::InsertReceipt(
                NewEntityReceipt {
                    transaction_date: self.form.transaction_date,
                    is_inventory_taxed: self.form.is_inventory_taxed,
                    currency_id: self.currency_id,
                    store_id: self.store_id,
                    transaction_id: self.form.transaction_id,
                },
            ),
            CreatePhase::InsertProduct(i) => StoreRequest::InsertProduct(
                lines[i as int].product.described().unwrap(),
            ),
            CreatePhase::InsertInventory(i) => StoreRequest::InsertInventory(
                NewEntityInventory {
                    price: lines[i as int].price,
                    quantity: lines[i as int].quantity,
                    product_id: self.product_id,
                    receipt_id: self.receipt_id,
                },
            ),
        }
    }

    /// The first step of the creation of `form`.
    pub open spec fn started(form: CreateReceiptPayload) -> CreateProgress {
        if classify(form.currency.id, form.currency.name) is Absent {
            CreateProgress::Finished(Err(ApiError::CurrencyInvalid))
        } else {
            CreateProgress::Pending(
                CreateState {
                    form,
                    phase: CreatePhase::CheckCurrency,
                    currency_id: 0,
                    store_id: 0,
                    receipt_id: 0,
                    product_id: 0,
                },
            )
        }
    }

    pub open spec fn entering_store(self) -> CreateProgress {
        if classify(self.form.store.id, self.form.store.name) is Absent {
            CreateProgress::Finished(Err(ApiError::StoreInvalid))
        } else {
            CreateProgress::Pending(CreateState { phase: CreatePhase::CheckStore, ..self })
        }
    }

    pub open spec fn entering_product(self, i: usize) -> CreateProgress {
        let lines = self.form.inventories@;
        if i >= lines.len() {
            self.entering_currency_insert()
        } else if classify(lines[i as int].product.id, lines[i as int].product.name) is Absent {
            CreateProgress::Finished(Err(ApiError::ProductInvalid))
        } else {
            CreateProgress::Pending(
                CreateState { phase: CreatePhase::CheckProduct(i), ..self },
            )
        }
    }

    pub open spec fn entering_currency_insert(self) -> CreateProgress {
        match (self.form.currency.id, self.form.currency.name) {
            (Some(id), _) => CreateState { currency_id: id, ..self }.entering_store_insert(),
            (None, Some(_)) => CreateProgress::Pending(
                CreateState { phase: CreatePhase::InsertCurrency, ..self },
            ),
            (None, None) => CreateProgress::Finished(Err(ApiError::CurrencyInvalid)),
        }
    }

    pub open spec fn entering_store_insert(self) -> CreateProgress {
        match (self.form.store.id, self.form.store.name) {
            (Some(id), _) => CreateProgress::Pending(
                CreateState { phase: CreatePhase::InsertReceipt, store_id: id, ..self },
            ),
            (None, Some(_)) => CreateProgress::Pending(
                CreateState { phase: CreatePhase::InsertStore, ..self },
            ),
            (None, None) => CreateProgress::Finished(Err(ApiError::StoreInvalid)),
        }
    }

    pub open spec fn entering_line(self, i: usize) -> CreateProgress {
        let lines = self.form.inventories@;
        if i >= lines.len() {
            CreateProgress::Finished(Ok(ResponseCreateReceipt { id: self.receipt_id }))
        } else {
            match (lines[i as int].product.id, lines[i as int].product.name) {
                (Some(id), _) => CreateProgress::Pending(
                    CreateState {
                        phase: CreatePhase::InsertInventory(i),
                        product_id: id,
                        ..self
                    },
                ),
                (None, Some(_)) => CreateProgress::Pending(
                    CreateState { phase: CreatePhase::InsertProduct(i), ..self },
                ),
                (None, None) => CreateProgress::Finished(Err(ApiError::ProductInvalid)),
            }
        }
    }

    /// The step that follows when the store answers `reply` to the pending
    /// request. A reply that reports a failure ends the creation with the
    /// error of the phase; a verdict against a reference ends it before
    /// anything is written.
    pub open spec fn after(self, reply: StoreReply) -> CreateProgress {
        let lines = self.form.inventories@;
        match self.phase {
            CreatePhase::CheckCurrency => match currency_validated(self.form.currency, reply) {
                Err(error) => CreateProgress::Finished(Err(error)),
                Ok(_) => self.entering_store(),
            },
            CreatePhase::CheckStore => match store_validated(self.form.store, reply) {
                Err(error) => CreateProgress::Finished(Err(error)),
                Ok(_) => self.entering_product(0),
            },
            CreatePhase::CheckProduct(i) => match product_validated(lines[i as int].product, reply) {
                Err(error) => CreateProgress::Finished(Err(error)),
                Ok(_) => self.entering_product((i + 1) as usize),
            },
            CreatePhase::InsertCurrency => match reply.as_id(ApiError::InsertCurrencyFailed) {
                Err(error) => CreateProgress::Finished(Err(error)),
                Ok(id) => CreateState { currency_id: id, ..self }.entering_store_insert(),
            },
            CreatePhase::InsertStore => match reply.as_id(ApiError::InsertStoreFailed) {
                Err(error) => CreateProgress::Finished(Err(error)),
                Ok(id) => CreateProgress::Pending(
                    CreateState {
                        phase: CreatePhase::InsertReceipt,
                        store_id: id,
                        ..self
                    },
                ),
            },
            CreatePhase::InsertReceipt => match reply.as_id(ApiError::InsertReceiptFailed) {
                Err(error) => CreateProgress::Finished(Err(error)),
                Ok(id) => CreateState { receipt_id: id, ..self }.entering_line(0),
            },
            CreatePhase::InsertProduct(i) => match reply.as_id(ApiError::InsertProductFailed) {
                Err(error) => CreateProgress::Finished(Err(error)),
                Ok(id) => CreateProgress::Pending(
                    CreateState {
                        phase: CreatePhase::InsertInventory(i),
                        product_id: id,
                        ..self
                    },
                ),
            },
            CreatePhase::InsertInventory(i) => match reply.as_id(ApiError::InsertInventoryFailed) {
                Err(error) => CreateProgress::Finished(Err(error)),
                Ok(_) => self.entering_line((i + 1) as usize),
            },
        }
    }
}

impl CreateReceiptWorkflow {
    #[verifier::type_invariant]
    spec fn inv(self) -> bool {
        self@.wf()
    }

    /// Begins the creation of `form`.
    pub fn start(form: CreateReceiptPayload) -> (step: CreateStep)
        ensures
            step@ == CreateState::started(form),
    {
        let status = FormDataValidatorService::new().validate_relationship_model(&form.currency);
        if status == FormRelationshipModelStatus::Absent {
            CreateStep::Finished(Err(ApiError::CurrencyInvalid))
        } else {
            CreateStep::Pending(
                CreateReceiptWorkflow {
                    form,
                    phase: CreatePhase::CheckCurrency,
                    currency_id: 0,
                    store_id: 0,
                    receipt_id: 0,
                    product_id: 0,
                },
            )
        }
    }

    /// The request to send to the store next.
    pub fn request(&self) -> (request: StoreRequest)
        ensures
            self@.wf(),
            request == self@.pending(),
    {
        proof {
            use_type_invariant(self);
        }
        match self.phase {
            CreatePhase::CheckCurrency => match (self.form.currency.id, &self.form.currency.name) {
                (Some(id), _) => StoreRequest::CurrencyExistsById(id),
                (None, Some(name)) => StoreRequest::CurrencyExistsByName(name.clone()),
                (None, None) => vstd::pervasive::unreached(),
            },
            CreatePhase::CheckStore => match (self.form.store.id, &self.form.store.name) {
                (Some(id), _) => StoreRequest::StoreExistsById(id),
                (None, Some(name)) => StoreRequest::StoreExistsByNameAndBranch(
                    name.clone(),
                    clone_text(&self.form.store.branch),
                ),
                (None, None) => vstd::pervasive::unreached(),
            },
            CreatePhase::CheckProduct(i) => {
                let product = &self.form.inventories[i].product;
                match (product.id, product.get_attributes()) {
                    (Some(id), _) => StoreRequest::ProductExistsById(id),
                    (None, Some(attributes)) => StoreRequest::ProductExistsByName(attributes),
                    (None, None) => vstd::pervasive::unreached(),
                }
            },
            CreatePhase::InsertCurrency => match self.form.currency.describe() {
                Some(new) => StoreRequest::InsertCurrency(new),
                None => vstd::pervasive::unreached(),
            },
            CreatePhase::InsertStore => match self.form.store.describe() {
                Some(new) => StoreRequest::InsertStore(new),
                None => vstd::pervasive::unreached(),
            },
            CreatePhase::InsertReceipt => StoreRequest::InsertReceipt(
                NewEntityReceipt {
                    transaction_date: self.form.transaction_date,
                    is_inventory_taxed: self.form.is_inventory_taxed,
                    currency_id: self.currency_id,
                    store_id: self.store_id,
                    transaction_id: self.form.transaction_id,
                },
            ),
            CreatePhase::InsertProduct(i) => match self.form.inventories[i].product.describe() {
                Some(new) => StoreRequest::InsertProduct(new),
                None => vstd::pervasive::unreached(),
            },
            CreatePhase::InsertInventory(i) => StoreRequest::InsertInventory(
                NewEntityInventory {
                    price: self.form.inventories[i].price.clone(),
                    quantity: self.form.inventories[i].quantity,
                    product_id: self.product_id,
                    receipt_id: self.receipt_id,
                },
            ),
        }
    }

    fn enter_store(self) -> (step: CreateStep)
        ensures
            step@ == self@.entering_store(),
    {
        proof {
            use_type_invariant(&self);
        }
        let status = FormDataValidatorService::new().validate_relationship_model(&self.form.store);
        if status == FormRelationshipModelStatus::Absent {
            CreateStep::Finished(Err(ApiError::StoreInvalid))
        } else {
            CreateStep::Pending(CreateReceiptWorkflow { phase: CreatePhase::CheckStore, ..self })
        }
    }

    fn enter_product(self, i: usize) -> (step: CreateStep)
        ensures
            step@ == self@.entering_product(i),
    {
        proof {
            use_type_invariant(&self);
        }
        if i >= self.form.inventories.len() {
            return self.enter_currency_insert();
        }
        let status = FormDataValidatorService::new().validate_relationship_model(
            &self.form.inventories[i].product,
        );
        if status == FormRelationshipModelStatus::Absent {
            CreateStep::Finished(Err(ApiError::ProductInvalid))
        } else {
            CreateStep::Pending(
                CreateReceiptWorkflow { phase: CreatePhase::CheckProduct(i), ..self },
            )
        }
    }

    fn enter_currency_insert(self) -> (step: CreateStep)
        ensures
            step@ == self@.entering_currency_insert(),
    {
        proof {
            use_type_invariant(&self);
        }
        match self.form.currency.id {
            Some(id) => CreateReceiptWorkflow { currency_id: id, ..self }.enter_store_insert(),
            None => if self.form.currency.name.is_some() {
                CreateStep::Pending(
                    CreateReceiptWorkflow { phase: CreatePhase::InsertCurrency, ..self },
                )
            } else {
                CreateStep::Finished(Err(ApiError::CurrencyInvalid))
            },
        }
    }

    fn enter_store_insert(self) -> (step: CreateStep)
        ensures
            step@ == self@.entering_store_insert(),
    {
        proof {
            use_type_invariant(&self);
        }
        match self.form.store.id {
            Some(id) => CreateStep::Pending(
                CreateReceiptWorkflow { phase: CreatePhase::InsertReceipt, store_id: id, ..self },
            ),
            None => if self.form.store.name.is_some() {
                CreateStep::Pending(
                    CreateReceiptWorkflow { phase: CreatePhase::InsertStore, ..self },
                )
            } else {
                CreateStep::Finished(Err(ApiError::StoreInvalid))
            },
        }
    }

    fn enter_line(self, i: usize) -> (step: CreateStep)
        ensures
            step@ == self@.entering_line(i),
    {
        proof {
            use_type_invariant(&self);
        }
        if i >= self.form.inventories.len() {
            return CreateStep::Finished(Ok(ResponseCreateReceipt { id: self.receipt_id }));
        }
        match self.form.inventories[i].product.id {
            Some(id) => CreateStep::Pending(
                CreateReceiptWorkflow {
                    phase: CreatePhase::InsertInventory(i),
                    product_id: id,
                    ..self
                },
            ),
            None => if self.form.inventories[i].product.name.is_some() {
                CreateStep::Pending(
                    CreateReceiptWorkflow { phase: CreatePhase::InsertProduct(i), ..self },
                )
            } else {
                CreateStep::Finished(Err(ApiError::ProductInvalid))
            },
        }
    }

    /// Takes the store's reply to the pending request and decides what
    /// follows.
    pub fn advance(self, reply: StoreReply) -> (step: CreateStep)
        ensures
            step@ == self@.after(reply),
            step@.remaining() <= self@.rank(),
            step@ matches CreateProgress::Pending(next) ==> next.form == self@.form,
            reply is ConnectionBroken ==> step@ == CreateProgress::Finished(
                Err(ApiError::DatabaseConnectionBroken),
            ),
    {
        proof {
            use_type_invariant(&self);
        }
        let service = ReceiptService::new();
        let lines = self.form.inventories.len();
        match self.phase {
            CreatePhase::CheckCurrency => match service.validate_currency(
                &self.form.currency,
                &reply,
            ) {
                Err(error) => CreateStep::Finished(Err(error)),
                Ok(_) => self.enter_store(),
            },
            CreatePhase::CheckStore => match service.validate_store(&self.form.store, &reply) {
                Err(error) => CreateStep::Finished(Err(error)),
                Ok(_) => self.enter_product(0),
            },
            CreatePhase::CheckProduct(i) => match service.validate_product(
                &self.form.inventories[i].product,
                &reply,
            ) {
                Err(error) => CreateStep::Finished(Err(error)),
                Ok(_) => self.enter_product(i + 1),
            },
            CreatePhase::InsertCurrency => match reply.id(ApiError::InsertCurrencyFailed) {
                Err(error) => CreateStep::Finished(Err(error)),
                Ok(id) => CreateReceiptWorkflow { currency_id: id, ..self }.enter_store_insert(),
            },
            CreatePhase::InsertStore => match reply.id(ApiError::InsertStoreFailed) {
                Err(error) => CreateStep::Finished(Err(error)),
                Ok(id) => CreateStep::Pending(
                    CreateReceiptWorkflow {
                        phase: CreatePhase::InsertReceipt,
                        store_id: id,
                        ..self
                    },
                ),
            },
            CreatePhase::InsertReceipt => match reply.id(ApiError::InsertReceiptFailed) {
                Err(error) => CreateStep::Finished(Err(error)),
                Ok(id) => CreateReceiptWorkflow { receipt_id: id, ..self }.enter_line(0),
            },
            CreatePhase::InsertProduct(i) => match reply.id(ApiError::InsertProductFailed) {
                Err(error) => CreateStep::Finished(Err(error)),
                Ok(id) => CreateStep::Pending(
                    CreateReceiptWorkflow {
                        phase: CreatePhase::InsertInventory(i),
                        product_id: id,
                        ..self
                    },
                ),
            },
            CreatePhase::InsertInventory(i) => match reply.id(ApiError::InsertInventoryFailed) {
                Err(error) => CreateStep::Finished(Err(error)),
                Ok(_) => self.enter_line(i + 1),
            },
        }
    }
}

impl CreateProgress {
    /// An upper bound on the steps that are still to come.
    pub open spec fn remaining(self) -> nat {
        match self {
            CreateProgress::Pending(state) => state.rank() + 1,
            CreateProgress::Finished(_) => 0,
        }
    }

    /// Whether the step is one of a creation of `form` that began with the
    /// store `before` and has brought it to `now`: a pending step has
    /// written what the phases before it write, each reference that was
    /// checked is accepted, and a finished step has the outcome of the
    /// creation.
    pub open spec fn on_track(
        self,
        before: Database,
        form: CreateReceiptPayload,
        now: Database,
    ) -> bool {
        match self {
            CreateProgress::Finished(result) => create_outcome(before, form, result, now),
            CreateProgress::Pending(state) => {
                let lines = form.inventories@;
                let (with_currency, currency) = resolve_currency(before, form.currency);
                let (with_store, store) = resolve_store(with_currency, form.store);
                let base = with_receipt(before, form);
                let receipt = before.next_receipt_id;
                let accepted = create_verdict(before, form) is None;
                let room_for_currency = form.currency.id is None ==> before.next_currency_id
                    < i32::MAX;
                let room_for_store = form.store.id is None ==> before.next_store_id < i32::MAX;
                let room_for_receipt = before.next_receipt_id < i32::MAX;
                &&& state.form == form
                &&& match state.phase {
                    CreatePhase::CheckCurrency => now == before,
                    CreatePhase::CheckStore => {
                        &&& now == before
                        &&& currency_verdict(before, form.currency) is None
                    },
                    CreatePhase::CheckProduct(i) => {
                        &&& now == before
                        &&& currency_verdict(before, form.currency) is None
                        &&& store_verdict(before, form.store) is None
                        &&& i < lines.len()
                        &&& lines_verdict(before, lines.take(i as int)) is None
                    },
                    CreatePhase::InsertCurrency => {
                        &&& now == before
                        &&& accepted
                        &&& form.currency.id is None
                    },
                    CreatePhase::InsertStore => {
                        &&& now == with_currency
                        &&& accepted
                        &&& room_for_currency
                        &&& state.currency_id == currency
                        &&& form.store.id is None
                    },
                    CreatePhase::InsertReceipt => {
                        &&& now == with_store
                        &&& accepted
                        &&& room_for_currency
                        &&& room_for_store
                        &&& state.currency_id == currency
                        &&& state.store_id == store
                    },
                    CreatePhase::InsertProduct(i) => {
                        &&& i < lines.len()
                        &&& now == add_lines(base, lines.take(i as int), receipt)
                        &&& accepted
                        &&& room_for_currency
                        &&& room_for_store
                        &&& room_for_receipt
                        &&& before.next_product_id + new_products(lines.take(i as int))
                            <= i32::MAX
                        &&& before.next_inventory_id + i <= i32::MAX
                        &&& state.receipt_id == receipt
                        &&& lines[i as int].product.id is None
                    },
                    CreatePhase::InsertInventory(i) => {
                        let resolved = resolve_product(
                            add_lines(base, lines.take(i as int), receipt),
                            lines[i as int].product,
                        );
                        &&& i < lines.len()
                        &&& now == resolved.0
                        &&& accepted
                        &&& room_for_currency
                        &&& room_for_store
                        &&& room_for_receipt
                        &&& before.next_product_id + new_products(lines.take(i + 1)) <= i32::MAX
                        &&& before.next_inventory_id + i <= i32::MAX
                        &&& state.receipt_id == receipt
                        &&& state.product_id == resolved.1
                    },
                }
            },
        }
    }
}

/// The verdict on the first `i + 1` lines is that on the first `i`, else
/// that on the line `i`.
pub proof fn lemma_lines_verdict_step(
    db: Database,
    lines: Seq<CreateInventoryInReceiptPayload>,
    i: int,
)
    requires
        0 <= i < lines.len(),
    ensures
        lines_verdict(db, lines.take(i + 1)) == match lines_verdict(db, lines.take(i)) {
            Some(error) => Some(error),
            None => product_verdict(db, lines[i].product),
        },
{
    assert(lines.take(i + 1).drop_last() =~= lines.take(i));
    assert(lines.take(i + 1).last() == lines[i]);
}

/// A verdict against a line stands, whatever lines follow it.
pub proof fn lemma_lines_verdict_stands(
    db: Database,
    lines: Seq<CreateInventoryInReceiptPayload>,
    i: int,
)
    requires
        0 <= i <= lines.len(),
        lines_verdict(db, lines.take(i)) is Some,
    ensures
        lines_verdict(db, lines) == lines_verdict(db, lines.take(i)),
    decreases lines.len() - i,
{
    if i < lines.len() {
        lemma_lines_verdict_step(db, lines, i);
        lemma_lines_verdict_stands(db, lines, i + 1);
    } else {
        assert(lines.take(i) =~= lines);
    }
}

/// Where no line is rejected, none of the first `i` is, and the product of
/// each single line is accepted.
pub proof fn lemma_lines_accepted(db: Database, lines: Seq<CreateInventoryInReceiptPayload>, i: int)
    requires
        lines_verdict(db, lines) is None,
        0 <= i < lines.len(),
    ensures
        lines_verdict(db, lines.take(i)) is None,
        product_verdict(db, lines[i].product) is None,
{
    if lines_verdict(db, lines.take(i)) is Some {
        lemma_lines_verdict_stands(db, lines, i);
    }
    lemma_lines_verdict_step(db, lines, i);
    if lines_verdict(db, lines.take(i + 1)) is Some {
        lemma_lines_verdict_stands(db, lines, i + 1);
    }
}

/// Writing the first `i + 1` lines is writing the first `i` and then the
/// line `i`; as many products are new among them as among the first `i`,
/// and one more if the line `i` describes its product.
pub proof fn lemma_add_lines_step(
    db: Database,
    lines: Seq<CreateInventoryInReceiptPayload>,
    receipt: i32,
    i: int,
)
    requires
        0 <= i < lines.len(),
    ensures
        add_lines(db, lines.take(i + 1), receipt) == add_line(
            add_lines(db, lines.take(i), receipt),
            lines[i],
            receipt,
        ),
        new_products(lines.take(i + 1)) == new_products(lines.take(i)) + (if lines[i].product.id
            is None {
            1nat
        } else {
            0nat
        }),
        new_products(lines.take(i + 1)) <= new_products(lines),
{
    broadcast use Seq::lemma_filter_len_push;

    assert(lines.take(i + 1).drop_last() =~= lines.take(i));
    assert(lines.take(i + 1).last() == lines[i]);
    assert(lines.take(i + 1) =~= lines.take(i).push(lines[i]));
    lines.lemma_filter_take_len(describes_product(), i + 1);
}

/// Writing lines leaves the currencies, the stores and the receipts alone,
/// and advances the next product and inventory identifiers by the rows that
/// it inserted, as long as there are identifiers left.
pub proof fn lemma_add_lines_frame(
    db: Database,
    lines: Seq<CreateInventoryInReceiptPayload>,
    receipt: i32,
)
    ensures
        ({
            let out = add_lines(db, lines, receipt);
            &&& out.currencies == db.currencies
            &&& out.stores == db.stores
            &&& out.receipts == db.receipts
            &&& out.next_currency_id == db.next_currency_id
            &&& out.next_store_id == db.next_store_id
            &&& out.next_receipt_id == db.next_receipt_id
            &&& db.next_product_id + new_products(lines) <= i32::MAX ==> out.next_product_id
                == db.next_product_id + new_products(lines)
            &&& db.next_inventory_id + lines.len() <= i32::MAX ==> out.next_inventory_id
                == db.next_inventory_id + lines.len()
        }),
    decreases lines.len(),
{
    broadcast use Seq::lemma_filter_len_push;

    if lines.len() == 0 {
        crate::tables::lemma_filter_of_nothing::<CreateInventoryInReceiptPayload>(
            describes_product(),
        );
        assert(lines =~= Seq::<CreateInventoryInReceiptPayload>::empty());
    } else {
        lemma_add_lines_frame(db, lines.drop_last(), receipt);
        assert(lines =~= lines.drop_last().push(lines.last()));
    }
}

/// Where the tables have identifiers left for the lines, every line is
/// written.
pub proof fn lemma_write_lines_with_room(
    db: Database,
    lines: Seq<CreateInventoryInReceiptPayload>,
    receipt: i32,
)
    requires
        db.next_product_id + new_products(lines) <= i32::MAX,
        db.next_inventory_id + lines.len() <= i32::MAX,
    ensures
        write_lines(db, lines, receipt) == (add_lines(db, lines, receipt), None::<ApiError>),
    decreases lines.len(),
{
    broadcast use Seq::lemma_filter_len_push;

    if lines.len() > 0 {
        let front = lines.drop_last();
        assert(lines =~= front.push(lines.last()));
        lemma_write_lines_with_room(db, front, receipt);
        lemma_add_lines_frame(db, front, receipt);
    }
}

/// Where every line is written, the tables had identifiers left for them,
/// and the store is the one with the lines added.
pub proof fn lemma_write_lines_had_room(
    db: Database,
    lines: Seq<CreateInventoryInReceiptPayload>,
    receipt: i32,
)
    requires
        write_lines(db, lines, receipt).1 is None,
    ensures
        db.next_product_id + new_products(lines) <= i32::MAX,
        db.next_inventory_id + lines.len() <= i32::MAX,
        write_lines(db, lines, receipt).0 == add_lines(db, lines, receipt),
    decreases lines.len(),
{
    broadcast use Seq::lemma_filter_len_push;

    if lines.len() == 0 {
        crate::tables::lemma_filter_of_nothing::<CreateInventoryInReceiptPayload>(
            describes_product(),
        );
        assert(lines =~= Seq::<CreateInventoryInReceiptPayload>::empty());
    } else {
        let front = lines.drop_last();
        assert(lines =~= front.push(lines.last()));
        lemma_write_lines_had_room(db, front, receipt);
        lemma_add_lines_frame(db, front, receipt);
    }
}

/// An insert that fails at a line ends the writing, whatever lines follow:
/// the store and the failure are those of the first lines.
pub proof fn lemma_write_lines_stands(
    db: Database,
    lines: Seq<CreateInventoryInReceiptPayload>,
    receipt: i32,
    i: int,
)
    requires
        0 <= i <= lines.len(),
        write_lines(db, lines.take(i), receipt).1 is Some,
    ensures
        write_lines(db, lines, receipt) == write_lines(db, lines.take(i), receipt),
    decreases lines.len() - i,
{
    if i < lines.len() {
        assert(lines.take(i + 1).drop_last() =~= lines.take(i));
        lemma_write_lines_stands(db, lines, receipt, i + 1);
    } else {
        assert(lines.take(i) =~= lines);
    }
}

/// The only failures of a writing are failed inserts of a product or of an
/// inventory line.
pub proof fn lemma_write_lines_failure(
    db: Database,
    lines: Seq<CreateInventoryInReceiptPayload>,
    receipt: i32,
)
    ensures
        write_lines(db, lines, receipt).1 matches Some(error) ==> error
            is InsertProductFailed || error is InsertInventoryFailed,
    decreases lines.len(),
{
    if lines.len() > 0 {
        lemma_write_lines_failure(db, lines.drop_last(), receipt);
    }
}

/// The first step of a creation is on track.
proof fn lemma_started_on_track(before: Database, form: CreateReceiptPayload)
    ensures
        CreateState::started(form).on_track(before, form, before),
{
}

proof fn lemma_step_check_currency(
    state: CreateState,
    before: Database,
    form: CreateReceiptPayload,
    now: Database,
    reply: StoreReply,
    next: Database,
)
    requires
        CreateProgress::Pending(state).on_track(before, form, now),
        state.wf(),
        now.serves(state.pending(), reply, next),
        state.phase is CheckCurrency,
    ensures
        state.after(reply).on_track(before, form, next),
{
    let lines = form.inventories@;
    let base = with_receipt(before, form);
    let receipt = before.next_receipt_id;
        assert(next == before);
        assert(currency_validated(form.currency, reply) is Ok <==> currency_verdict(
            before,
            form.currency,
        ) is None);
        assert(currency_validated(form.currency, reply) matches Err(error) ==> currency_verdict(
            before,
            form.currency,
        ) == Some(error));
}

proof fn lemma_step_check_store(
    state: CreateState,
    before: Database,
    form: CreateReceiptPayload,
    now: Database,
    reply: StoreReply,
    next: Database,
)
    requires
        CreateProgress::Pending(state).on_track(before, form, now),
        state.wf(),
        now.serves(state.pending(), reply, next),
        state.phase is CheckStore,
    ensures
        state.after(reply).on_track(before, form, next),
{
    let lines = form.inventories@;
    let base = with_receipt(before, form);
    let receipt = before.next_receipt_id;
        assert(lines.take(0) =~= Seq::<CreateInventoryInReceiptPayload>::empty());
        if lines.len() == 0 {
            assert(lines.take(0) =~= lines);
        } else {
            lemma_lines_verdict_step(before, lines, 0);
            if lines_verdict(before, lines.take(1)) is Some {
                lemma_lines_verdict_stands(before, lines, 1);
            }
        }
}

proof fn lemma_step_check_product(
    state: CreateState,
    before: Database,
    form: CreateReceiptPayload,
    now: Database,
    reply: StoreReply,
    next: Database,
)
    requires
        CreateProgress::Pending(state).on_track(before, form, now),
        state.wf(),
        now.serves(state.pending(), reply, next),
        state.phase is CheckProduct,
    ensures
        state.after(reply).on_track(before, form, next),
{
    let lines = form.inventories@;
    let base = with_receipt(before, form);
    let receipt = before.next_receipt_id;
    let i = state.phase->CheckProduct_0;
        assert(lines.len() == form.inventories.len());
        lemma_lines_verdict_step(before, lines, i as int);
        if lines_verdict(before, lines.take(i + 1)) is Some {
            lemma_lines_verdict_stands(before, lines, i + 1);
        }
        if i + 1 == lines.len() {
            assert(lines.take(i + 1) =~= lines);
        } else {
            lemma_lines_verdict_step(before, lines, i + 1);
            if lines_verdict(before, lines.take(i + 2)) is Some {
                lemma_lines_verdict_stands(before, lines, i + 2);
            }
        }
}

proof fn lemma_step_insert_currency(
    state: CreateState,
    before: Database,
    form: CreateReceiptPayload,
    now: Database,
    reply: StoreReply,
    next: Database,
)
    requires
        CreateProgress::Pending(state).on_track(before, form, now),
        state.wf(),
        now.serves(state.pending(), reply, next),
        state.phase is InsertCurrency,
    ensures
        state.after(reply).on_track(before, form, next),
{
    let lines = form.inventories@;
    let base = with_receipt(before, form);
    let receipt = before.next_receipt_id;
        lemma_finish_empty(before, form);
}

proof fn lemma_step_insert_store(
    state: CreateState,
    before: Database,
    form: CreateReceiptPayload,
    now: Database,
    reply: StoreReply,
    next: Database,
)
    requires
        CreateProgress::Pending(state).on_track(before, form, now),
        state.wf(),
        now.serves(state.pending(), reply, next),
        state.phase is InsertStore,
    ensures
        state.after(reply).on_track(before, form, next),
{
    let lines = form.inventories@;
    let base = with_receipt(before, form);
    let receipt = before.next_receipt_id;
        lemma_finish_empty(before, form);
}

proof fn lemma_step_insert_receipt(
    state: CreateState,
    before: Database,
    form: CreateReceiptPayload,
    now: Database,
    reply: StoreReply,
    next: Database,
)
    requires
        CreateProgress::Pending(state).on_track(before, form, now),
        state.wf(),
        now.serves(state.pending(), reply, next),
        state.phase is InsertReceipt,
    ensures
        state.after(reply).on_track(before, form, next),
{
    let lines = form.inventories@;
    let base = with_receipt(before, form);
    let receipt = before.next_receipt_id;
        assert(lines.take(0) =~= Seq::<CreateInventoryInReceiptPayload>::empty());
        crate::tables::lemma_filter_of_nothing::<CreateInventoryInReceiptPayload>(
            describes_product(),
        );
        lemma_finish_empty(before, form);
        if lines.len() > 0 {
            lemma_lines_accepted(before, lines, 0);
            lemma_add_lines_step(base, lines, receipt, 0);
        }
}

proof fn lemma_step_insert_product(
    state: CreateState,
    before: Database,
    form: CreateReceiptPayload,
    now: Database,
    reply: StoreReply,
    next: Database,
)
    requires
        CreateProgress::Pending(state).on_track(before, form, now),
        state.wf(),
        now.serves(state.pending(), reply, next),
        state.phase is InsertProduct,
    ensures
        state.after(reply).on_track(before, form, next),
{
    let lines = form.inventories@;
    let base = with_receipt(before, form);
    let receipt = before.next_receipt_id;
    let i = state.phase->InsertProduct_0;
        lemma_add_lines_frame(base, lines.take(i as int), receipt);
        lemma_add_lines_step(base, lines, receipt, i as int);
        lemma_write_lines_with_room(base, lines.take(i as int), receipt);
        if !now.accepts(state.pending()) {
            assert(lines.take(i + 1).drop_last() =~= lines.take(i as int));
            assert(lines.take(i + 1).last() == lines[i as int]);
            lemma_write_lines_stands(base, lines, receipt, i + 1);
        }
}

proof fn lemma_step_insert_inventory(
    state: CreateState,
    before: Database,
    form: CreateReceiptPayload,
    now: Database,
    reply: StoreReply,
    next: Database,
)
    requires
        CreateProgress::Pending(state).on_track(before, form, now),
        state.wf(),
        now.serves(state.pending(), reply, next),
        state.phase is InsertInventory,
    ensures
        state.after(reply).on_track(before, form, next),
{
    let lines = form.inventories@;
    let base = with_receipt(before, form);
    let receipt = before.next_receipt_id;
    let i = state.phase->InsertInventory_0;
        lemma_add_lines_frame(base, lines.take(i as int), receipt);
        lemma_add_lines_step(base, lines, receipt, i as int);
        lemma_write_lines_with_room(base, lines.take(i as int), receipt);
        assert(lines.take(i + 1).drop_last() =~= lines.take(i as int));
        assert(lines.take(i + 1).last() == lines[i as int]);
        if !now.accepts(state.pending()) {
            lemma_write_lines_stands(base, lines, receipt, i + 1);
        } else if i + 1 == lines.len() {
            assert(lines.take(i + 1) =~= lines);
        } else {
            lemma_lines_accepted(before, lines, i + 1);
            lemma_add_lines_step(base, lines, receipt, i + 1);
        }
}

/// A step that is on track stays on track when an honest store serves its
/// request.
proof fn lemma_step_on_track(
    state: CreateState,
    before: Database,
    form: CreateReceiptPayload,
    now: Database,
    reply: StoreReply,
    next: Database,
)
    requires
        CreateProgress::Pending(state).on_track(before, form, now),
        state.wf(),
        now.serves(state.pending(), reply, next),
    ensures
        state.after(reply).on_track(before, form, next),
{
    match state.phase {
        CreatePhase::CheckCurrency => lemma_step_check_currency(state, before, form, now, reply, next),
        CreatePhase::CheckStore => lemma_step_check_store(state, before, form, now, reply, next),
        CreatePhase::CheckProduct(_) => lemma_step_check_product(state, before, form, now, reply, next),
        CreatePhase::InsertCurrency => lemma_step_insert_currency(state, before, form, now, reply, next),
        CreatePhase::InsertStore => lemma_step_insert_store(state, before, form, now, reply, next),
        CreatePhase::InsertReceipt => lemma_step_insert_receipt(state, before, form, now, reply, next),
        CreatePhase::InsertProduct(_) => lemma_step_insert_product(state, before, form, now, reply, next),
        CreatePhase::InsertInventory(_) => lemma_step_insert_inventory(state, before, form, now, reply, next),
    }
}

/// A payload without lines is written once its receipt is.
proof fn lemma_finish_empty(before: Database, form: CreateReceiptPayload)
    ensures
        form.inventories@.len() == 0 ==> write_lines(
            with_receipt(before, form),
            form.inventories@,
            before.next_receipt_id,
        ) == (with_receipt(before, form), None::<ApiError>),
{
}

impl ReceiptService {
    /// Creates the receipt that `form_receipt` describes in `store`.
    ///
    /// The currency, the store and the product of every line are checked
    /// first, in this order, against the store as it is; the first reference
    /// that is rejected gives the error, and nothing is written. Otherwise
    /// the rows that the references describe, the receipt and its lines are
    /// inserted, and the receipt's identifier is returned.
    pub fn create_receipt(&self, store: &mut MemoryStore, form_receipt: CreateReceiptPayload) -> (result:
        Result<ResponseCreateReceipt, ApiError>)
        requires
            old(store)@.wf(),
        ensures
            final(store)@.wf(),
            create_outcome(old(store)@, form_receipt, result, final(store)@),
    {
        let ghost before = store@;
        let ghost form = form_receipt;
        let mut step = CreateReceiptWorkflow::start(form_receipt);
        proof {
            lemma_started_on_track(before, form);
        }
        loop
            invariant
                before == old(store)@,
                form == form_receipt,
                store@.wf(),
                step@.on_track(before, form, store@),
            decreases step@.remaining(),
        {
            match step {
                CreateStep::Finished(result) => {
                    return result;
                },
                CreateStep::Pending(workflow) => {
                    let request = workflow.request();
                    let ghost now = store@;
                    let reply = store.execute(&request);
                    proof {
                        lemma_step_on_track(workflow@, before, form, now, reply, store@);
                    }
                    step = workflow.advance(reply);
                },
            }
        }
    }
}

} // verus!
