//! Deletion of a receipt with its inventory lines and with the products,
//! the store and the currency that nothing else refers to.
//!
//! The store has no cascade of its own. The lines go first, then every
//! product that only those lines referred to, then the receipt, and at last
//! the store and the currency if no other receipt refers to them.

use crate::create_receipt::ReceiptService;
use crate::database::{
    distinct_keys, has_key, line_of_receipt, row_with_key, without_key,
    without_key_keep, without_keys, without_keys_keep, Database,
};
use crate::tables::{lemma_filter_agree, lemma_filter_all, lemma_filter_of_nothing};
use crate::entities::{EntityCurrency, EntityInventory, EntityProduct, EntityStore, Keyed};
use crate::errors::ApiError;
use crate::gateway::{StoreReply, StoreRequest};
use crate::memory_store::MemoryStore;
use vstd::prelude::*;

verus! {

/// The inventory lines that belong to another receipt than `receipt`.
pub open spec fn line_of_other_receipt(receipt: i32) -> spec_fn(EntityInventory) -> bool {
    |line: EntityInventory| line.receipt_id != receipt
}

/// Some inventory line of the receipt refers to the product.
pub open spec fn lines_mention(db: Database, receipt: i32, product: i32) -> bool {
    exists|i: int|
        0 <= i < db.inventories.len() && (#[trigger] db.inventories[i]).receipt_id == receipt
            && db.inventories[i].product_id == product
}

/// Some inventory line of another receipt refers to the product.
pub open spec fn other_lines_mention(db: Database, receipt: i32, product: i32) -> bool {
    exists|i: int|
        0 <= i < db.inventories.len() && (#[trigger] db.inventories[i]).receipt_id != receipt
            && db.inventories[i].product_id == product
}

/// Some other receipt refers to the store.
pub open spec fn other_receipts_use_store(db: Database, receipt: i32, store: i32) -> bool {
    exists|i: int|
        0 <= i < db.receipts.len() && (#[trigger] db.receipts[i]).id != receipt
            && db.receipts[i].store_id == store
}

/// Some other receipt refers to the currency.
pub open spec fn other_receipts_use_currency(db: Database, receipt: i32, currency: i32) -> bool {
    exists|i: int|
        0 <= i < db.receipts.len() && (#[trigger] db.receipts[i]).id != receipt
            && db.receipts[i].currency_id == currency
}

/// The products that stay when the receipt is deleted: all but those that
/// only the receipt's lines refer to.
pub open spec fn product_outlives(db: Database, receipt: i32) -> spec_fn(EntityProduct) -> bool {
    |product: EntityProduct|
        !lines_mention(db, receipt, product.id) || other_lines_mention(db, receipt, product.id)
}

/// The stores that stay when the receipt is deleted: all but the receipt's
/// store, which stays if another receipt refers to it.
pub open spec fn store_outlives(db: Database, receipt: i32) -> spec_fn(EntityStore) -> bool {
    |store: EntityStore|
        store.id != row_with_key(db.receipts, receipt).store_id || other_receipts_use_store(
            db,
            receipt,
            store.id,
        )
}

/// The currencies that stay when the receipt is deleted: all but the
/// receipt's currency, which stays if another receipt refers to it.
pub open spec fn currency_outlives(db: Database, receipt: i32) -> spec_fn(EntityCurrency) -> bool {
    |currency: EntityCurrency|
        currency.id != row_with_key(db.receipts, receipt).currency_id
            || other_receipts_use_currency(db, receipt, currency.id)
}

/// The store without the lines of the receipt.
pub open spec fn without_lines(db: Database, receipt: i32) -> Database {
    Database { inventories: db.inventories.filter(line_of_other_receipt(receipt)), ..db }
}

/// The store without the lines of the receipt and the products that only
/// they referred to.
pub open spec fn without_orphan_products(db: Database, receipt: i32) -> Database {
    Database {
        products: db.products.filter(product_outlives(db, receipt)),
        ..without_lines(db, receipt)
    }
}

/// The store without the receipt, its lines and their orphaned products.
pub open spec fn without_receipt_row(db: Database, receipt: i32) -> Database {
    Database {
        receipts: without_key(db.receipts, receipt),
        ..without_orphan_products(db, receipt)
    }
}

/// The store as before, and without the receipt's store if it is orphaned.
pub open spec fn without_orphan_store(db: Database, receipt: i32) -> Database {
    Database {
        stores: db.stores.filter(store_outlives(db, receipt)),
        ..without_receipt_row(db, receipt)
    }
}

/// The store after the receipt is deleted: its row and its inventory lines
/// are gone, and so is every product, store and currency that only the
/// receipt and its lines referred to. Every other row stays, in its place.
pub open spec fn deleted(db: Database, receipt: i32) -> Database {
    Database {
        currencies: db.currencies.filter(currency_outlives(db, receipt)),
        ..without_orphan_store(db, receipt)
    }
}

/// What the deletion of the receipt `receipt` from the store `before` comes
/// to: a receipt that does not exist is reported and nothing changes; one
/// that exists is deleted with all that hangs on it.
pub open spec fn delete_outcome(
    before: Database,
    receipt: i32,
    result: Result<(), ApiError>,
    after: Database,
) -> bool {
    if has_key(before.receipts, receipt) {
        result == Ok::<(), ApiError>(()) && after == deleted(before, receipt)
    } else {
        result == Err::<(), ApiError>(ApiError::DeleteReceiptIdNotExisted) && after == before
    }
}

/// Where a deletion stands: which reply it waits for.
#[derive(Clone, Copy, Debug, PartialEq, Eq)]
pub enum DeletePhase {
    CheckReceipt,
    ListLines,
    DeleteLines,
    /// Asking whether the product of the line with this index is still
    /// referred to.
    CheckProduct(usize),
    DeleteProducts,
    FetchReceipt,
    DeleteReceipt,
    CheckStore,
    DeleteStore,
    CheckCurrency,
    DeleteCurrency,
}

/// A deletion in progress.
pub struct DeleteReceiptWorkflow {
    id: i32,
    phase: DeletePhase,
    line_ids: Vec<i32>,
    product_ids: Vec<i32>,
    orphans: Vec<i32>,
    store_id: i32,
    currency_id: i32,
}

/// A deletion in progress, as a mathematical value.
pub struct DeleteState {
    /// The receipt that is being deleted.
    pub id: i32,
    pub phase: DeletePhase,
    /// The identifiers of the receipt's inventory lines.
    pub line_ids: Seq<i32>,
    /// The product of each of the receipt's inventory lines.
    pub product_ids: Seq<i32>,
    /// The products that are found to be referred to by no line.
    pub orphans: Seq<i32>,
    /// The receipt's store.
    pub store_id: i32,
    /// The receipt's currency.
    pub currency_id: i32,
}

/// A deletion after a step: waiting for the reply to its next request, or
/// finished with its result.
pub enum DeleteStep {
    Pending(DeleteReceiptWorkflow),
    Finished(Result<(), ApiError>),
}

/// A deletion after a step, as a mathematical value.
pub enum DeleteProgress {
    Pending(DeleteState),
    Finished(Result<(), ApiError>),
}

impl View for DeleteReceiptWorkflow {
    type V = DeleteState;

    closed spec fn view(&self) -> DeleteState {
        DeleteState {
            id: self.id,
            phase: self.phase,
            line_ids: self.line_ids@,
            product_ids: self.product_ids@,
            orphans: self.orphans@,
            store_id: self.store_id,
            currency_id: self.currency_id,
        }
    }
}

impl View for DeleteStep {
    type V = DeleteProgress;

    open spec fn view(&self) -> DeleteProgress {
        match self {
            DeleteStep::Pending(workflow) => DeleteProgress::Pending(workflow@),
            DeleteStep::Finished(result) => DeleteProgress::Finished(*result),
        }
    }
}

/// The first of a pair.
pub open spec fn first_of_pair() -> spec_fn((i32, i32)) -> i32 {
    |pair: (i32, i32)| pair.0
}

/// The second of a pair.
pub open spec fn second_of_pair() -> spec_fn((i32, i32)) -> i32 {
    |pair: (i32, i32)| pair.1
}

impl DeleteState {
    /// The state is one that a deletion can be in.
    pub open spec fn wf(self) -> bool {
        &&& self.product_ids.len() <= usize::MAX
        &&& self.phase matches DeletePhase::CheckProduct(i) ==> i < self.product_ids.len()
    }

    /// The number of phases that are still to come, this one included.
    pub open spec fn stage(self) -> nat {
        match self.phase {
            DeletePhase::CheckReceipt => 11,
            DeletePhase::ListLines => 10,
            DeletePhase::DeleteLines => 9,
            DeletePhase::CheckProduct(_) => 8,
            DeletePhase::DeleteProducts => 7,
            DeletePhase::FetchReceipt => 6,
            DeletePhase::DeleteReceipt => 5,
            DeletePhase::CheckStore => 4,
            DeletePhase::DeleteStore => 3,
            DeletePhase::CheckCurrency => 2,
            DeletePhase::DeleteCurrency => 1,
        }
    }

    /// The number of products that are still to be asked about.
    pub open spec fn products_left(self) -> nat {
        match self.phase {
            DeletePhase::CheckProduct(i) => (self.product_ids.len() - i) as nat,
            _ => 0,
        }
    }

    /// Whether `request` is the request whose reply the deletion waits for.
    pub open spec fn asks(self, request: StoreRequest) -> bool {
        match self.phase {
            DeletePhase::CheckReceipt => request == StoreRequest::ReceiptExists(self.id),
            DeletePhase::ListLines => request == StoreRequest::InventoryProductPairs(self.id),
            DeletePhase::DeleteLines => request matches StoreRequest::DeleteInventories(ids)
                && ids@ == self.line_ids,
            DeletePhase::CheckProduct(i) => request == StoreRequest::ProductUnreferenced(
                self.product_ids[i as int],
            ),
            DeletePhase::DeleteProducts => request matches StoreRequest::DeleteProducts(ids)
                && ids@ == self.orphans,
            DeletePhase::FetchReceipt => request == StoreRequest::FetchReceipt(self.id),
            DeletePhase::DeleteReceipt => request == StoreRequest::DeleteReceipt(self.id),
            DeletePhase::CheckStore => request == StoreRequest::StoreUnreferenced(self.store_id),
            DeletePhase::DeleteStore => request == StoreRequest::DeleteStore(self.store_id),
            DeletePhase::CheckCurrency => request == StoreRequest::CurrencyUnreferenced(
                self.currency_id,
            ),
            DeletePhase::DeleteCurrency => request == StoreRequest::DeleteCurrency(
                self.currency_id,
            ),
        }
    }

    /// The state in which the product of the line `i` is asked about, or,
    /// after the last line, the one in which the orphans are deleted.
    pub open spec fn entering_product(self, i: int) -> DeleteState {
        if i < self.product_ids.len() {
            DeleteState { phase: DeletePhase::CheckProduct(i as usize), ..self }
        } else {
            DeleteState { phase: DeletePhase::DeleteProducts, ..self }
        }
    }

    /// The step that follows when the store answers `reply` to the pending
    /// request. A failure ends the deletion with the error of its phase:
    /// `DeleteReceiptIdNotExisted` while the receipt is looked for,
    /// `DeleteReceiptAssociatedEntryFailed` while lines and products are
    /// handled, `DeleteReceiptEntryFailed` for a rejected deletion of the
    /// receipt, store or currency, and `DeleteReceiptRelatedEntryFailed`
    /// while the store and the currency are asked about.
    pub open spec fn after(self, reply: StoreReply) -> DeleteProgress {
        match self.phase {
            DeletePhase::CheckReceipt => match reply.as_flag(ApiError::DeleteReceiptIdNotExisted) {
                Err(error) => DeleteProgress::Finished(Err(error)),
                Ok(found) => if found {
                    DeleteProgress::Pending(DeleteState { phase: DeletePhase::ListLines, ..self })
                } else {
                    DeleteProgress::Finished(Err(ApiError::DeleteReceiptIdNotExisted))
                },
            },
            DeletePhase::ListLines => match reply {
                StoreReply::Pairs(pairs) => DeleteProgress::Pending(
                    DeleteState {
                        phase: DeletePhase::DeleteLines,
                        line_ids: pairs@.map_values(first_of_pair()),
                        product_ids: pairs@.map_values(second_of_pair()),
                        ..self
                    },
                ),
                StoreReply::ConnectionBroken => DeleteProgress::Finished(
                    Err(ApiError::DatabaseConnectionBroken),
                ),
                _ => DeleteProgress::Finished(Err(ApiError::DeleteReceiptAssociatedEntryFailed)),
            },
            DeletePhase::DeleteLines => match reply.as_done(
                ApiError::DeleteReceiptAssociatedEntryFailed,
            ) {
                Err(error) => DeleteProgress::Finished(Err(error)),
                Ok(_) => DeleteProgress::Pending(self.entering_product(0)),
            },
            DeletePhase::CheckProduct(i) => match reply.as_flag(
                ApiError::DeleteReceiptAssociatedEntryFailed,
            ) {
                Err(error) => DeleteProgress::Finished(Err(error)),
                Ok(unreferenced) => DeleteProgress::Pending(
                    DeleteState {
                        orphans: if unreferenced {
                            self.orphans.push(self.product_ids[i as int])
                        } else {
                            self.orphans
                        },
                        ..self
                    }.entering_product(i + 1),
                ),
            },
            DeletePhase::DeleteProducts => match reply.as_done(
                ApiError::DeleteReceiptAssociatedEntryFailed,
            ) {
                Err(error) => DeleteProgress::Finished(Err(error)),
                Ok(_) => DeleteProgress::Pending(
                    DeleteState { phase: DeletePhase::FetchReceipt, ..self },
                ),
            },
            DeletePhase::FetchReceipt => match reply {
                StoreReply::Receipt(row) => DeleteProgress::Pending(
                    DeleteState {
                        phase: DeletePhase::DeleteReceipt,
                        store_id: row.store_id,
                        currency_id: row.currency_id,
                        ..self
                    },
                ),
                StoreReply::ConnectionBroken => DeleteProgress::Finished(
                    Err(ApiError::DatabaseConnectionBroken),
                ),
                _ => DeleteProgress::Finished(Err(ApiError::DeleteReceiptAssociatedEntryFailed)),
            },
            DeletePhase::DeleteReceipt => match reply.as_done(ApiError::DeleteReceiptEntryFailed) {
                Err(error) => DeleteProgress::Finished(Err(error)),
                Ok(_) => DeleteProgress::Pending(
                    DeleteState { phase: DeletePhase::CheckStore, ..self },
                ),
            },
            DeletePhase::CheckStore => match reply.as_flag(
                ApiError::DeleteReceiptRelatedEntryFailed,
            ) {
                Err(error) => DeleteProgress::Finished(Err(error)),
                Ok(unreferenced) => DeleteProgress::Pending(
                    DeleteState {
                        phase: if unreferenced {
                            DeletePhase::DeleteStore
                        } else {
                            DeletePhase::CheckCurrency
                        },
                        ..self
                    },
                ),
            },
            DeletePhase::DeleteStore => match reply.as_done(ApiError::DeleteReceiptEntryFailed) {
                Err(error) => DeleteProgress::Finished(Err(error)),
                Ok(_) => DeleteProgress::Pending(
                    DeleteState { phase: DeletePhase::CheckCurrency, ..self },
                ),
            },
            DeletePhase::CheckCurrency => match reply.as_flag(
                ApiError::DeleteReceiptRelatedEntryFailed,
            ) {
                Err(error) => DeleteProgress::Finished(Err(error)),
                Ok(unreferenced) => if unreferenced {
                    DeleteProgress::Pending(
                        DeleteState { phase: DeletePhase::DeleteCurrency, ..self },
                    )
                } else {
                    DeleteProgress::Finished(Ok(()))
                },
            },
            DeletePhase::DeleteCurrency => match reply.as_done(ApiError::DeleteReceiptEntryFailed) {
                Err(error) => DeleteProgress::Finished(Err(error)),
                Ok(_) => DeleteProgress::Finished(Ok(())),
            },
        }
    }
}

impl DeleteProgress {
    /// The number of phases that are still to come.
    pub open spec fn stage(self) -> nat {
        match self {
            DeleteProgress::Pending(state) => state.stage(),
            DeleteProgress::Finished(_) => 0,
        }
    }

    /// The number of products that are still to be asked about.
    pub open spec fn products_left(self) -> nat {
        match self {
            DeleteProgress::Pending(state) => state.products_left(),
            DeleteProgress::Finished(_) => 0,
        }
    }
}

/// A copy of a list of identifiers.
fn clone_ids(ids: &Vec<i32>) -> (copy: Vec<i32>)
    ensures
        copy@ == ids@,
{
    let mut copy: Vec<i32> = Vec::new();
    let mut i: usize = 0;
    while i < ids.len()
        invariant
            i <= ids.len(),
            copy@ == ids@.take(i as int),
        decreases ids.len() - i,
    {
        copy.push(ids[i]);
        proof {
            assert(ids@.take(i + 1) =~= ids@.take(i as int).push(ids@[i as int]));
        }
        i += 1;
    }
    proof {
        assert(ids@.take(i as int) =~= ids@);
    }
    copy
}

/// Splits pairs into their first and their second parts.
fn split_pairs(pairs: &Vec<(i32, i32)>) -> (parts: (Vec<i32>, Vec<i32>))
    ensures
        parts.0@ == pairs@.map_values(first_of_pair()),
        parts.1@ == pairs@.map_values(second_of_pair()),
{
    let mut firsts: Vec<i32> = Vec::new();
    let mut seconds: Vec<i32> = Vec::new();
    let mut i: usize = 0;
    while i < pairs.len()
        invariant
            i <= pairs.len(),
            firsts@ == pairs@.take(i as int).map_values(first_of_pair()),
            seconds@ == pairs@.take(i as int).map_values(second_of_pair()),
        decreases pairs.len() - i,
    {
        let pair = pairs[i];
        firsts.push(pair.0);
        seconds.push(pair.1);
        proof {
            assert(pairs@.take(i + 1) =~= pairs@.take(i as int).push(pairs@[i as int]));
            assert(pairs@.take(i + 1).map_values(first_of_pair()) =~= pairs@.take(
                i as int,
            ).map_values(first_of_pair()).push(pairs@[i as int].0));
            assert(pairs@.take(i + 1).map_values(second_of_pair()) =~= pairs@.take(
                i as int,
            ).map_values(second_of_pair()).push(pairs@[i as int].1));
        }
        i += 1;
    }
    proof {
        assert(pairs@.take(i as int) =~= pairs@);
    }
    (firsts, seconds)
}

impl DeleteReceiptWorkflow {
    #[verifier::type_invariant]
    spec fn inv(self) -> bool {
        self.phase matches DeletePhase::CheckProduct(i) ==> i < self.product_ids@.len()
    }

    /// Begins the deletion of the receipt `id`.
    pub fn start(id: i32) -> (workflow: Self)
        ensures
            workflow@ == (DeleteState {
                id,
                phase: DeletePhase::CheckReceipt,
                line_ids: Seq::empty(),
                product_ids: Seq::empty(),
                orphans: Seq::empty(),
                store_id: 0,
                currency_id: 0,
            }),
    {
        DeleteReceiptWorkflow {
            id,
            phase: DeletePhase::CheckReceipt,
            line_ids: Vec::new(),
            product_ids: Vec::new(),
            orphans: Vec::new(),
            store_id: 0,
            currency_id: 0,
        }
    }

    /// The request to send to the store next.
    pub fn request(&self) -> (request: StoreRequest)
        ensures
            self@.wf(),
            self@.asks(request),
    {
        proof {
            use_type_invariant(self);
        }
        let count = self.product_ids.len();
        match self.phase {
            DeletePhase::CheckReceipt => StoreRequest::ReceiptExists(self.id),
            DeletePhase::ListLines => StoreRequest::InventoryProductPairs(self.id),
            DeletePhase::DeleteLines => StoreRequest::DeleteInventories(clone_ids(&self.line_ids)),
            DeletePhase::CheckProduct(i) => StoreRequest::ProductUnreferenced(self.product_ids[i]),
            DeletePhase::DeleteProducts => StoreRequest::DeleteProducts(clone_ids(&self.orphans)),
            DeletePhase::FetchReceipt => StoreRequest::FetchReceipt(self.id),
            DeletePhase::DeleteReceipt => StoreRequest::DeleteReceipt(self.id),
            DeletePhase::CheckStore => StoreRequest::StoreUnreferenced(self.store_id),
            DeletePhase::DeleteStore => StoreRequest::DeleteStore(self.store_id),
            DeletePhase::CheckCurrency => StoreRequest::CurrencyUnreferenced(self.currency_id),
            DeletePhase::DeleteCurrency => StoreRequest::DeleteCurrency(self.currency_id),
        }
    }

    fn enter_product(self, i: usize) -> (step: DeleteStep)
        ensures
            step@ == DeleteProgress::Pending(self@.entering_product(i as int)),
    {
        proof {
            use_type_invariant(&self);
        }
        if i < self.product_ids.len() {
            DeleteStep::Pending(
                DeleteReceiptWorkflow { phase: DeletePhase::CheckProduct(i), ..self },
            )
        } else {
            DeleteStep::Pending(DeleteReceiptWorkflow { phase: DeletePhase::DeleteProducts, ..self })
        }
    }

    /// Takes the store's reply to the pending request and decides what
    /// follows.
    pub fn advance(self, reply: StoreReply) -> (step: DeleteStep)
        ensures
            step@ == self@.after(reply),
            step@.stage() < self@.stage() || (step@.stage() == self@.stage()
                && step@.products_left() < self@.products_left()),
            reply is ConnectionBroken ==> step@ == DeleteProgress::Finished(
                Err(ApiError::DatabaseConnectionBroken),
            ),
    {
        proof {
            use_type_invariant(&self);
        }
        let count = self.product_ids.len();
        match self.phase {
            DeletePhase::CheckReceipt => match reply.flag(ApiError::DeleteReceiptIdNotExisted) {
                Err(error) => DeleteStep::Finished(Err(error)),
                Ok(found) => if found {
                    DeleteStep::Pending(
                        DeleteReceiptWorkflow { phase: DeletePhase::ListLines, ..self },
                    )
                } else {
                    DeleteStep::Finished(Err(ApiError::DeleteReceiptIdNotExisted))
                },
            },
            DeletePhase::ListLines => match reply {
                StoreReply::Pairs(pairs) => {
                    let (line_ids, product_ids) = split_pairs(&pairs);
                    DeleteStep::Pending(
                        DeleteReceiptWorkflow {
                            phase: DeletePhase::DeleteLines,
                            line_ids,
                            product_ids,
                            ..self
                        },
                    )
                },
                StoreReply::ConnectionBroken => DeleteStep::Finished(
                    Err(ApiError::DatabaseConnectionBroken),
                ),
                _ => DeleteStep::Finished(Err(ApiError::DeleteReceiptAssociatedEntryFailed)),
            },
            DeletePhase::DeleteLines => match reply.done(
                ApiError::DeleteReceiptAssociatedEntryFailed,
            ) {
                Err(error) => DeleteStep::Finished(Err(error)),
                Ok(_) => self.enter_product(0),
            },
            DeletePhase::CheckProduct(i) => match reply.flag(
                ApiError::DeleteReceiptAssociatedEntryFailed,
            ) {
                Err(error) => DeleteStep::Finished(Err(error)),
                Ok(unreferenced) => {
                    let product = self.product_ids[i];
                    let mut orphans = self.orphans;
                    if unreferenced {
                        orphans.push(product);
                    }
                    DeleteReceiptWorkflow {
                        id: self.id,
                        phase: self.phase,
                        line_ids: self.line_ids,
                        product_ids: self.product_ids,
                        orphans,
                        store_id: self.store_id,
                        currency_id: self.currency_id,
                    }.enter_product(i + 1)
                },
            },
            DeletePhase::DeleteProducts => match reply.done(
                ApiError::DeleteReceiptAssociatedEntryFailed,
            ) {
                Err(error) => DeleteStep::Finished(Err(error)),
                Ok(_) => DeleteStep::Pending(
                    DeleteReceiptWorkflow { phase: DeletePhase::FetchReceipt, ..self },
                ),
            },
            DeletePhase::FetchReceipt => match reply {
                StoreReply::Receipt(row) => DeleteStep::Pending(
                    DeleteReceiptWorkflow {
                        phase: DeletePhase::DeleteReceipt,
                        store_id: row.store_id,
                        currency_id: row.currency_id,
                        ..self
                    },
                ),
                StoreReply::ConnectionBroken => DeleteStep::Finished(
                    Err(ApiError::DatabaseConnectionBroken),
                ),
                _ => DeleteStep::Finished(Err(ApiError::DeleteReceiptAssociatedEntryFailed)),
            },
            DeletePhase::DeleteReceipt => match reply.done(ApiError::DeleteReceiptEntryFailed) {
                Err(error) => DeleteStep::Finished(Err(error)),
                Ok(_) => DeleteStep::Pending(
                    DeleteReceiptWorkflow { phase: DeletePhase::CheckStore, ..self },
                ),
            },
            DeletePhase::CheckStore => match reply.flag(ApiError::DeleteReceiptRelatedEntryFailed) {
                Err(error) => DeleteStep::Finished(Err(error)),
                Ok(unreferenced) => if unreferenced {
                    DeleteStep::Pending(
                        DeleteReceiptWorkflow { phase: DeletePhase::DeleteStore, ..self },
                    )
                } else {
                    DeleteStep::Pending(
                        DeleteReceiptWorkflow { phase: DeletePhase::CheckCurrency, ..self },
                    )
                },
            },
            DeletePhase::DeleteStore => match reply.done(ApiError::DeleteReceiptEntryFailed) {
                Err(error) => DeleteStep::Finished(Err(error)),
                Ok(_) => DeleteStep::Pending(
                    DeleteReceiptWorkflow { phase: DeletePhase::CheckCurrency, ..self },
                ),
            },
            DeletePhase::CheckCurrency => match reply.flag(
                ApiError::DeleteReceiptRelatedEntryFailed,
            ) {
                Err(error) => DeleteStep::Finished(Err(error)),
                Ok(unreferenced) => if unreferenced {
                    DeleteStep::Pending(
                        DeleteReceiptWorkflow { phase: DeletePhase::DeleteCurrency, ..self },
                    )
                } else {
                    DeleteStep::Finished(Ok(()))
                },
            },
            DeletePhase::DeleteCurrency => match reply.done(ApiError::DeleteReceiptEntryFailed) {
                Err(error) => DeleteStep::Finished(Err(error)),
                Ok(_) => DeleteStep::Finished(Ok(())),
            },
        }
    }
}

/// The products that no inventory line of the store refers to.
pub open spec fn unreferenced_in(db: Database) -> spec_fn(i32) -> bool {
    |product: i32| !db.product_in_use(product)
}

/// Whether the progress is that of a deletion of the receipt `id` that
/// began with the store `before` and has brought it to `now`: a pending
/// state has deleted what the phases before it delete and holds what they
/// learned, and a finished deletion has its outcome.
pub open spec fn on_track(progress: DeleteProgress, before: Database, id: i32, now: Database)
    -> bool {
    match progress {
        DeleteProgress::Finished(result) => delete_outcome(before, id, result, now),
        DeleteProgress::Pending(state) => {
            let pairs = before.pairs_of(id);
            let lined = without_lines(before, id);
            let doomed = row_with_key(before.receipts, id);
            let listed = {
                &&& state.line_ids == pairs.map_values(first_of_pair())
                &&& state.product_ids == pairs.map_values(second_of_pair())
            };
            let fetched = {
                &&& state.store_id == doomed.store_id
                &&& state.currency_id == doomed.currency_id
            };
            &&& state.id == id
            &&& state.wf()
            &&& !(state.phase is CheckReceipt) ==> has_key(before.receipts, id)
            &&& match state.phase {
                DeletePhase::CheckReceipt => now == before && state.orphans.len() == 0,
                DeletePhase::ListLines => now == before && state.orphans.len() == 0,
                DeletePhase::DeleteLines => now == before && listed && state.orphans.len() == 0,
                DeletePhase::CheckProduct(i) => {
                    &&& now == lined
                    &&& listed
                    &&& state.orphans == state.product_ids.take(i as int).filter(
                        unreferenced_in(lined),
                    )
                },
                DeletePhase::DeleteProducts => {
                    &&& now == lined
                    &&& listed
                    &&& state.orphans == state.product_ids.filter(unreferenced_in(lined))
                },
                DeletePhase::FetchReceipt => now == without_orphan_products(before, id),
                DeletePhase::DeleteReceipt => now == without_orphan_products(before, id) && fetched,
                DeletePhase::CheckStore => now == without_receipt_row(before, id) && fetched,
                DeletePhase::DeleteStore => {
                    &&& now == without_receipt_row(before, id)
                    &&& fetched
                    &&& !now.store_in_use(state.store_id)
                },
                DeletePhase::CheckCurrency => now == without_orphan_store(before, id) && fetched,
                DeletePhase::DeleteCurrency => {
                    &&& now == without_orphan_store(before, id)
                    &&& fetched
                    &&& !now.currency_in_use(state.currency_id)
                },
            }
        },
    }
}

/// The listed pairs are those of the receipt's lines: a product is among
/// them exactly if a line of the receipt refers to it, and a line's
/// identifier is among them exactly if the line belongs to the receipt.
pub proof fn lemma_pairs_are_lines(db: Database, receipt: i32)
    requires
        distinct_keys(db.inventories),
    ensures
        forall|product: i32|
            db.pairs_of(receipt).map_values(second_of_pair()).contains(product) == lines_mention(
                db,
                receipt,
                product,
            ),
        forall|i: int|
            0 <= i < db.inventories.len() ==> db.pairs_of(receipt).map_values(
                first_of_pair(),
            ).contains((#[trigger] db.inventories[i]).id) == (db.inventories[i].receipt_id
                == receipt),
{
    broadcast use {Seq::lemma_filter_pred, Seq::lemma_filter_contains};

    let lines = db.lines_of(receipt);
    let pairs = db.pairs_of(receipt);
    let firsts = pairs.map_values(first_of_pair());
    let seconds = pairs.map_values(second_of_pair());
    assert forall|j: int| 0 <= j < lines.len() implies db.inventories.contains(
        #[trigger] lines[j],
    ) && lines[j].receipt_id == receipt by {
        assert(lines.contains(lines[j]));
        db.inventories.lemma_filter_contains_rev(line_of_receipt(receipt), lines[j]);
        assert(line_of_receipt(receipt)(lines[j]));
    }
    assert forall|product: i32| seconds.contains(product) == lines_mention(
        db,
        receipt,
        product,
    ) by {
        if seconds.contains(product) {
            let j = choose|j: int| 0 <= j < seconds.len() && seconds[j] == product;
            assert(db.inventories.contains(lines[j]));
            let m = choose|m: int| 0 <= m < db.inventories.len() && db.inventories[m] == lines[j];
            assert(db.inventories[m].receipt_id == receipt && db.inventories[m].product_id
                == product);
        }
        if lines_mention(db, receipt, product) {
            let m = choose|m: int|
                0 <= m < db.inventories.len() && (#[trigger] db.inventories[m]).receipt_id
                    == receipt && db.inventories[m].product_id == product;
            assert(line_of_receipt(receipt)(db.inventories[m]));
            assert(lines.contains(db.inventories[m]));
            let j = choose|j: int| 0 <= j < lines.len() && lines[j] == db.inventories[m];
            assert(seconds[j] == product);
        }
    }
    assert forall|i: int| 0 <= i < db.inventories.len() implies firsts.contains(
        (#[trigger] db.inventories[i]).id,
    ) == (db.inventories[i].receipt_id == receipt) by {
        let row = db.inventories[i];
        if firsts.contains(row.id) {
            let j = choose|j: int| 0 <= j < firsts.len() && firsts[j] == row.id;
            assert(db.inventories.contains(lines[j]));
            let m = choose|m: int| 0 <= m < db.inventories.len() && db.inventories[m] == lines[j];
            assert(db.inventories[m].id == db.inventories[i].id);
            if m < i {
                assert(db.inventories[m].key() != db.inventories[i].key());
            }
            if i < m {
                assert(db.inventories[i].key() != db.inventories[m].key());
            }
        }
        if row.receipt_id == receipt {
            assert(line_of_receipt(receipt)(db.inventories[i]));
            assert(lines.contains(db.inventories[i]));
            let j = choose|j: int| 0 <= j < lines.len() && lines[j] == row;
            assert(firsts[j] == row.id);
        }
    }
}

/// Deleting the listed lines by their identifiers deletes the lines of the
/// receipt and no other.
pub proof fn lemma_lines_deleted(db: Database, receipt: i32)
    requires
        distinct_keys(db.inventories),
    ensures
        without_keys(db.inventories, db.pairs_of(receipt).map_values(first_of_pair()))
            == db.inventories.filter(line_of_other_receipt(receipt)),
{
    let ids = db.pairs_of(receipt).map_values(first_of_pair());
    lemma_pairs_are_lines(db, receipt);
    assert forall|i: int| 0 <= i < db.inventories.len() implies without_keys_keep(ids)(
        #[trigger] db.inventories[i],
    ) == line_of_other_receipt(receipt)(db.inventories[i]) by {
        assert(ids.contains(db.inventories[i].id) == (db.inventories[i].receipt_id == receipt));
    }
    lemma_filter_agree(
        db.inventories,
        without_keys_keep(ids),
        line_of_other_receipt(receipt),
    );
}

/// Once the lines of the receipt are gone, a product is in use exactly if a
/// line of another receipt refers to it.
pub proof fn lemma_use_after_lines(db: Database, receipt: i32, product: i32)
    ensures
        without_lines(db, receipt).product_in_use(product) == other_lines_mention(
            db,
            receipt,
            product,
        ),
{
    broadcast use {Seq::lemma_filter_pred, Seq::lemma_filter_contains};

    let keep = line_of_other_receipt(receipt);
    let kept = db.inventories.filter(keep);
    assert(without_lines(db, receipt).inventories == kept);
    if without_lines(db, receipt).product_in_use(product) {
        let k = choose|k: int| 0 <= k < kept.len() && (#[trigger] kept[k]).product_id == product;
        assert(keep(kept[k]));
        assert(kept.contains(kept[k]));
        db.inventories.lemma_filter_contains_rev(keep, kept[k]);
        let m = choose|m: int| 0 <= m < db.inventories.len() && db.inventories[m] == kept[k];
        assert(db.inventories[m].receipt_id != receipt && db.inventories[m].product_id == product);
    }
    if other_lines_mention(db, receipt, product) {
        let m = choose|m: int|
            0 <= m < db.inventories.len() && (#[trigger] db.inventories[m]).receipt_id != receipt
                && db.inventories[m].product_id == product;
        assert(keep(db.inventories[m]));
        assert(kept.contains(db.inventories[m]));
        let k = choose|k: int| 0 <= k < kept.len() && kept[k] == db.inventories[m];
        assert(kept[k].product_id == product);
    }
}

/// Deleting the orphans by their identifiers deletes the products that only
/// the receipt's lines referred to, and no other.
pub proof fn lemma_products_deleted(db: Database, receipt: i32)
    requires
        distinct_keys(db.inventories),
    ensures
        without_keys(
            db.products,
            db.pairs_of(receipt).map_values(second_of_pair()).filter(
                unreferenced_in(without_lines(db, receipt)),
            ),
        ) == db.products.filter(product_outlives(db, receipt)),
{
    broadcast use {Seq::lemma_filter_pred, Seq::lemma_filter_contains};

    let products = db.pairs_of(receipt).map_values(second_of_pair());
    let unused = unreferenced_in(without_lines(db, receipt));
    let orphans = products.filter(unused);
    lemma_pairs_are_lines(db, receipt);
    assert forall|i: int| 0 <= i < db.products.len() implies without_keys_keep(orphans)(
        #[trigger] db.products[i],
    ) == product_outlives(db, receipt)(db.products[i]) by {
        let id = db.products[i].id;
        lemma_use_after_lines(db, receipt, id);
        assert(products.contains(id) == lines_mention(db, receipt, id));
        if orphans.contains(id) {
            let k = choose|k: int| 0 <= k < orphans.len() && orphans[k] == id;
            assert(unused(orphans[k]));
            products.lemma_filter_contains_rev(unused, id);
        }
        if products.contains(id) && unused(id) {
            let k = choose|k: int| 0 <= k < products.len() && products[k] == id;
            assert(orphans.contains(products[k]));
        }
    }
    lemma_filter_agree(db.products, without_keys_keep(orphans), product_outlives(db, receipt));
}

/// Once the receipt is gone, a store or a currency is in use exactly if
/// another receipt refers to it.
pub proof fn lemma_use_after_receipt(db: Database, receipt: i32, store: i32, currency: i32)
    ensures
        without_receipt_row(db, receipt).store_in_use(store) == other_receipts_use_store(
            db,
            receipt,
            store,
        ),
        without_orphan_store(db, receipt).currency_in_use(currency)
            == other_receipts_use_currency(db, receipt, currency),
{
    broadcast use {Seq::lemma_filter_pred, Seq::lemma_filter_contains};

    let keep = without_key_keep::<crate::entities::EntityReceipt>(receipt);
    let kept = db.receipts.filter(keep);
    assert(without_receipt_row(db, receipt).receipts == kept);
    assert(without_orphan_store(db, receipt).receipts == kept);
    if without_receipt_row(db, receipt).store_in_use(store) {
        let k = choose|k: int| 0 <= k < kept.len() && (#[trigger] kept[k]).store_id == store;
        assert(keep(kept[k]));
        assert(kept.contains(kept[k]));
        db.receipts.lemma_filter_contains_rev(keep, kept[k]);
        let m = choose|m: int| 0 <= m < db.receipts.len() && db.receipts[m] == kept[k];
        assert(db.receipts[m].id != receipt && db.receipts[m].store_id == store);
    }
    if other_receipts_use_store(db, receipt, store) {
        let m = choose|m: int|
            0 <= m < db.receipts.len() && (#[trigger] db.receipts[m]).id != receipt
                && db.receipts[m].store_id == store;
        assert(keep(db.receipts[m]));
        assert(kept.contains(db.receipts[m]));
        let k = choose|k: int| 0 <= k < kept.len() && kept[k] == db.receipts[m];
        assert(kept[k].store_id == store);
    }
    if without_orphan_store(db, receipt).currency_in_use(currency) {
        let k = choose|k: int| 0 <= k < kept.len() && (#[trigger] kept[k]).currency_id == currency;
        assert(keep(kept[k]));
        assert(kept.contains(kept[k]));
        db.receipts.lemma_filter_contains_rev(keep, kept[k]);
        let m = choose|m: int| 0 <= m < db.receipts.len() && db.receipts[m] == kept[k];
        assert(db.receipts[m].id != receipt && db.receipts[m].currency_id == currency);
    }
    if other_receipts_use_currency(db, receipt, currency) {
        let m = choose|m: int|
            0 <= m < db.receipts.len() && (#[trigger] db.receipts[m]).id != receipt
                && db.receipts[m].currency_id == currency;
        assert(keep(db.receipts[m]));
        assert(kept.contains(db.receipts[m]));
        let k = choose|k: int| 0 <= k < kept.len() && kept[k] == db.receipts[m];
        assert(kept[k].currency_id == currency);
    }
}

/// A deletion that is on track stays on track when an honest store serves
/// its request.
pub proof fn lemma_step_on_track(
    state: DeleteState,
    before: Database,
    id: i32,
    now: Database,
    request: StoreRequest,
    reply: StoreReply,
    next: Database,
)
    requires
        before.wf(),
        on_track(DeleteProgress::Pending(state), before, id, now),
        state.asks(request),
        now.serves(request, reply, next),
    ensures
        on_track(state.after(reply), before, id, next),
{
    broadcast use Seq::lemma_filter_push;

    let doomed = row_with_key(before.receipts, id);
    let lined = without_lines(before, id);
    match state.phase {
        DeletePhase::CheckReceipt => {},
        DeletePhase::ListLines => {
            if let StoreReply::Pairs(pairs) = reply {
                assert(pairs@.len() == pairs.len());
            }
        },
        DeletePhase::DeleteLines => {
            lemma_lines_deleted(before, id);
            lemma_filter_of_nothing(unreferenced_in(lined));
            assert(state.orphans =~= Seq::<i32>::empty());
            assert(state.product_ids.take(0) =~= Seq::<i32>::empty());
            if state.product_ids.len() == 0 {
                assert(state.product_ids =~= Seq::<i32>::empty());
            }
        },
        DeletePhase::CheckProduct(i) => {
            assert(state.product_ids.take(i + 1) =~= state.product_ids.take(i as int).push(
                state.product_ids[i as int],
            ));
            if i + 1 >= state.product_ids.len() {
                assert(state.product_ids.take(i + 1) =~= state.product_ids);
            }
        },
        DeletePhase::DeleteProducts => {
            lemma_products_deleted(before, id);
        },
        DeletePhase::FetchReceipt => {},
        DeletePhase::DeleteReceipt => {},
        DeletePhase::CheckStore => {
            lemma_use_after_receipt(before, id, state.store_id, state.currency_id);
            if now.store_in_use(state.store_id) {
                assert forall|i: int| 0 <= i < before.stores.len() implies store_outlives(
                    before,
                    id,
                )(#[trigger] before.stores[i]) by {}
                lemma_filter_all(before.stores, store_outlives(before, id));
            }
        },
        DeletePhase::DeleteStore => {
            lemma_use_after_receipt(before, id, state.store_id, state.currency_id);
            assert forall|i: int| 0 <= i < before.stores.len() implies without_key_keep(
                state.store_id,
            )(#[trigger] before.stores[i]) == store_outlives(before, id)(before.stores[i]) by {
                lemma_use_after_receipt(before, id, before.stores[i].id, state.currency_id);
            }
            lemma_filter_agree(
                before.stores,
                without_key_keep(state.store_id),
                store_outlives(before, id),
            );
        },
        DeletePhase::CheckCurrency => {
            lemma_use_after_receipt(before, id, state.store_id, state.currency_id);
            if now.currency_in_use(state.currency_id) {
                assert forall|i: int| 0 <= i < before.currencies.len() implies currency_outlives(
                    before,
                    id,
                )(#[trigger] before.currencies[i]) by {}
                lemma_filter_all(before.currencies, currency_outlives(before, id));
            }
        },
        DeletePhase::DeleteCurrency => {
            lemma_use_after_receipt(before, id, state.store_id, state.currency_id);
            assert forall|i: int| 0 <= i < before.currencies.len() implies without_key_keep(
                state.currency_id,
            )(#[trigger] before.currencies[i]) == currency_outlives(before, id)(
                before.currencies[i],
            ) by {
                lemma_use_after_receipt(before, id, state.store_id, before.currencies[i].id);
            }
            lemma_filter_agree(
                before.currencies,
                without_key_keep(state.currency_id),
                currency_outlives(before, id),
            );
        },
    }
}

impl ReceiptService {
    /// Deletes the receipt `id` from `store` with its inventory lines, and
    /// with every product, store and currency that nothing refers to once
    /// they are gone. A row that another receipt or line refers to stays.
    pub fn delete_receipt(&self, store: &mut MemoryStore, id: i32) -> (result: Result<(), ApiError>)
        requires
            old(store)@.wf(),
        ensures
            final(store)@.wf(),
            delete_outcome(old(store)@, id, result, final(store)@),
    {
        let ghost before = store@;
        let mut step = DeleteStep::Pending(DeleteReceiptWorkflow::start(id));
        loop
            invariant
                before == old(store)@,
                before.wf(),
                store@.wf(),
                on_track(step@, before, id, store@),
            decreases step@.stage(), step@.products_left(),
        {
            match step {
                DeleteStep::Finished(result) => {
                    return result;
                },
                DeleteStep::Pending(workflow) => {
                    let request = workflow.request();
                    let ghost now = store@;
                    let reply = store.execute(&request);
                    proof {
                        lemma_step_on_track(workflow@, before, id, now, request, reply, store@);
                    }
                    step = workflow.advance(reply);
                },
            }
        }
    }
}

} // verus!
