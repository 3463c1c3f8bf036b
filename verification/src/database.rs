//! The contents of the store as a mathematical value, and what each request
//! of the gateway protocol means for it.

use crate::entities::{
    EntityCurrency, EntityInventory, EntityProduct, EntityReceipt, EntityStore, Keyed,
    NewEntityCurrency, NewEntityInventory, NewEntityProduct, NewEntityReceipt, NewEntityStore,
    ProductAttributes, UpdateEntityCurrency, UpdateEntityProduct, UpdateEntityReceipt,
    UpdateEntityStore,
};
use crate::gateway::{StoreReply, StoreRequest};
use vstd::prelude::*;

verus! {

/// Some row of `rows` has the identifier `id`.
pub open spec fn has_key<T: Keyed>(rows: Seq<T>, id: i32) -> bool {
    exists|i: int| 0 <= i < rows.len() && (#[trigger] rows[i]).key() == id
}

/// No two rows of `rows` share an identifier.
pub open spec fn distinct_keys<T: Keyed>(rows: Seq<T>) -> bool {
    forall|i: int, j: int|
        0 <= i < j < rows.len() ==> (#[trigger] rows[i]).key() != (#[trigger] rows[j]).key()
}

/// Every identifier in `rows` is below `bound`.
pub open spec fn keys_below<T: Keyed>(rows: Seq<T>, bound: i32) -> bool {
    forall|i: int| 0 <= i < rows.len() ==> (#[trigger] rows[i]).key() < bound
}

/// A table whose next row gets the identifier `next`.
pub open spec fn table_wf<T: Keyed>(rows: Seq<T>, next: i32) -> bool {
    distinct_keys(rows) && keys_below(rows, next)
}

/// The rows that stay when the identifier `id` is deleted.
pub open spec fn without_key_keep<T: Keyed>(id: i32) -> spec_fn(T) -> bool {
    |row: T| row.key() != id
}

/// The rows that stay when the identifiers in `ids` are deleted.
pub open spec fn without_keys_keep<T: Keyed>(ids: Seq<i32>) -> spec_fn(T) -> bool {
    |row: T| !ids.contains(row.key())
}

/// The rows of `rows` but the one with the identifier `id`.
pub open spec fn without_key<T: Keyed>(rows: Seq<T>, id: i32) -> Seq<T> {
    rows.filter(without_key_keep(id))
}

/// The rows of `rows` but those with an identifier in `ids`.
pub open spec fn without_keys<T: Keyed>(rows: Seq<T>, ids: Seq<i32>) -> Seq<T> {
    rows.filter(without_keys_keep(ids))
}

/// The row of `rows` with the identifier `id`, where there is one.
pub open spec fn row_with_key<T: Keyed>(rows: Seq<T>, id: i32) -> T {
    rows[choose|i: int| 0 <= i < rows.len() && (#[trigger] rows[i]).key() == id]
}

/// Whether an inventory line belongs to the receipt.
pub open spec fn line_of_receipt(receipt: i32) -> spec_fn(EntityInventory) -> bool {
    |line: EntityInventory| line.receipt_id == receipt
}

/// An inventory line's identifier and its product's.
pub open spec fn pair_of_line() -> spec_fn(EntityInventory) -> (i32, i32) {
    |line: EntityInventory| (line.id, line.product_id)
}

/// What a change to a currency makes of each row of the table.
pub open spec fn currency_change(changes: UpdateEntityCurrency) -> spec_fn(EntityCurrency)
    -> EntityCurrency {
    |row: EntityCurrency|
        if row.id == changes.id {
            changes.applied(row)
        } else {
            row
        }
}

/// What a change to a store makes of each row of the table.
pub open spec fn store_change(changes: UpdateEntityStore) -> spec_fn(EntityStore) -> EntityStore {
    |row: EntityStore|
        if row.id == changes.id {
            changes.applied(row)
        } else {
            row
        }
}

/// What a change to a product makes of each row of the table.
pub open spec fn product_change(changes: UpdateEntityProduct) -> spec_fn(EntityProduct)
    -> EntityProduct {
    |row: EntityProduct|
        if row.id == changes.id {
            changes.applied(row)
        } else {
            row
        }
}

/// What a change to a receipt makes of each row of the table.
pub open spec fn receipt_change(changes: UpdateEntityReceipt) -> spec_fn(EntityReceipt)
    -> EntityReceipt {
    |row: EntityReceipt|
        if row.id == changes.id {
            changes.applied(row)
        } else {
            row
        }
}

/// What overwriting an inventory line makes of each row of the table: the
/// line with the identifier of `new` takes its price, quantity, product and
/// receipt.
pub open spec fn inventory_change(new: EntityInventory) -> spec_fn(EntityInventory)
    -> EntityInventory {
    |row: EntityInventory|
        if row.id == new.id {
            new
        } else {
            row
        }
}

/// The five tables, each with the identifier that its next row gets.
pub struct Database {
    pub currencies: Seq<EntityCurrency>,
    pub stores: Seq<EntityStore>,
    pub products: Seq<EntityProduct>,
    pub receipts: Seq<EntityReceipt>,
    pub inventories: Seq<EntityInventory>,
    pub next_currency_id: i32,
    pub next_store_id: i32,
    pub next_product_id: i32,
    pub next_receipt_id: i32,
    pub next_inventory_id: i32,
}

impl Database {
    /// Identifiers are unique within a table and older than the next one.
    pub open spec fn wf(self) -> bool {
        &&& table_wf(self.currencies, self.next_currency_id)
        &&& table_wf(self.stores, self.next_store_id)
        &&& table_wf(self.products, self.next_product_id)
        &&& table_wf(self.receipts, self.next_receipt_id)
        &&& table_wf(self.inventories, self.next_inventory_id)
    }

    /// Every inventory line belongs to a receipt and names a product, and
    /// every receipt names a currency and a store.
    pub open spec fn references_resolve(self) -> bool {
        &&& forall|i: int|
            0 <= i < self.inventories.len() ==> has_key(
                self.receipts,
                (#[trigger] self.inventories[i]).receipt_id,
            ) && has_key(self.products, self.inventories[i].product_id)
        &&& forall|i: int|
            0 <= i < self.receipts.len() ==> has_key(
                self.currencies,
                (#[trigger] self.receipts[i]).currency_id,
            ) && has_key(self.stores, self.receipts[i].store_id)
    }

    /// The store without any row.
    pub open spec fn empty() -> Database {
        Database {
            currencies: Seq::empty(),
            stores: Seq::empty(),
            products: Seq::empty(),
            receipts: Seq::empty(),
            inventories: Seq::empty(),
            next_currency_id: 1,
            next_store_id: 1,
            next_product_id: 1,
            next_receipt_id: 1,
            next_inventory_id: 1,
        }
    }

    /// Some currency has this name.
    pub open spec fn currency_named(self, name: Seq<char>) -> bool {
        exists|i: int| 0 <= i < self.currencies.len() && (#[trigger] self.currencies[i]).named(name)
    }

    /// Some store has this name and this branch; no branch is the branch
    /// of a store without one.
    pub open spec fn store_matching(self, name: Seq<char>, branch: Option<Seq<char>>) -> bool {
        exists|i: int|
            0 <= i < self.stores.len() && (#[trigger] self.stores[i]).matches(name, branch)
    }

    /// Some product has exactly these attributes.
    pub open spec fn product_described(self, attributes: ProductAttributes) -> bool {
        exists|i: int|
            0 <= i < self.products.len() && attributes.describes(#[trigger] self.products[i])
    }

    /// Some inventory line refers to the product.
    pub open spec fn product_in_use(self, product: i32) -> bool {
        exists|i: int|
            0 <= i < self.inventories.len() && (#[trigger] self.inventories[i]).product_id
                == product
    }

    /// Some receipt refers to the store.
    pub open spec fn store_in_use(self, store: i32) -> bool {
        exists|i: int| 0 <= i < self.receipts.len() && (#[trigger] self.receipts[i]).store_id == store
    }

    /// Some receipt refers to the currency.
    pub open spec fn currency_in_use(self, currency: i32) -> bool {
        exists|i: int|
            0 <= i < self.receipts.len() && (#[trigger] self.receipts[i]).currency_id == currency
    }

    /// The inventory lines of a receipt, in the order of the table.
    pub open spec fn lines_of(self, receipt: i32) -> Seq<EntityInventory> {
        self.inventories.filter(line_of_receipt(receipt))
    }

    /// For each inventory line of a receipt, its identifier and its product's.
    pub open spec fn pairs_of(self, receipt: i32) -> Seq<(i32, i32)> {
        self.lines_of(receipt).map_values(pair_of_line())
    }

    pub open spec fn insert_currency(self, new: NewEntityCurrency) -> Database {
        Database {
            currencies: self.currencies.push(new.row(self.next_currency_id)),
            next_currency_id: (self.next_currency_id + 1) as i32,
            ..self
        }
    }

    pub open spec fn insert_store(self, new: NewEntityStore) -> Database {
        Database {
            stores: self.stores.push(new.row(self.next_store_id)),
            next_store_id: (self.next_store_id + 1) as i32,
            ..self
        }
    }

    pub open spec fn insert_product(self, new: NewEntityProduct) -> Database {
        Database {
            products: self.products.push(new.row(self.next_product_id)),
            next_product_id: (self.next_product_id + 1) as i32,
            ..self
        }
    }

    pub open spec fn insert_receipt(self, new: NewEntityReceipt) -> Database {
        Database {
            receipts: self.receipts.push(new.row(self.next_receipt_id)),
            next_receipt_id: (self.next_receipt_id + 1) as i32,
            ..self
        }
    }

    pub open spec fn insert_inventory(self, new: NewEntityInventory) -> Database {
        Database {
            inventories: self.inventories.push(new.row(self.next_inventory_id)),
            next_inventory_id: (self.next_inventory_id + 1) as i32,
            ..self
        }
    }

    pub open spec fn delete_inventories(self, ids: Seq<i32>) -> Database {
        Database { inventories: without_keys(self.inventories, ids), ..self }
    }

    pub open spec fn delete_products(self, ids: Seq<i32>) -> Database {
        Database { products: without_keys(self.products, ids), ..self }
    }

    pub open spec fn delete_receipt(self, id: i32) -> Database {
        Database { receipts: without_key(self.receipts, id), ..self }
    }

    pub open spec fn delete_store(self, id: i32) -> Database {
        Database { stores: without_key(self.stores, id), ..self }
    }

    pub open spec fn delete_currency(self, id: i32) -> Database {
        Database { currencies: without_key(self.currencies, id), ..self }
    }

    pub open spec fn update_currency(self, changes: UpdateEntityCurrency) -> Database {
        Database { currencies: self.currencies.map_values(currency_change(changes)), ..self }
    }

    pub open spec fn update_store(self, changes: UpdateEntityStore) -> Database {
        Database { stores: self.stores.map_values(store_change(changes)), ..self }
    }

    pub open spec fn update_product(self, changes: UpdateEntityProduct) -> Database {
        Database { products: self.products.map_values(product_change(changes)), ..self }
    }

    pub open spec fn update_receipt(self, changes: UpdateEntityReceipt) -> Database {
        Database { receipts: self.receipts.map_values(receipt_change(changes)), ..self }
    }

    pub open spec fn update_inventory(self, new: EntityInventory) -> Database {
        Database { inventories: self.inventories.map_values(inventory_change(new)), ..self }
    }

    /// The store after `request`, where the store accepts it. A question
    /// changes nothing.
    pub open spec fn after(self, request: StoreRequest) -> Database {
        match request {
            StoreRequest::InsertCurrency(new) => self.insert_currency(new),
            StoreRequest::InsertStore(new) => self.insert_store(new),
            StoreRequest::InsertProduct(new) => self.insert_product(new),
            StoreRequest::InsertReceipt(new) => self.insert_receipt(new),
            StoreRequest::InsertInventory(new) => self.insert_inventory(new),
            StoreRequest::DeleteInventories(ids) => self.delete_inventories(ids@),
            StoreRequest::DeleteProducts(ids) => self.delete_products(ids@),
            StoreRequest::DeleteReceipt(id) => self.delete_receipt(id),
            StoreRequest::DeleteStore(id) => self.delete_store(id),
            StoreRequest::DeleteCurrency(id) => self.delete_currency(id),
            StoreRequest::UpdateCurrency(changes) => self.update_currency(changes),
            StoreRequest::UpdateStore(changes) => self.update_store(changes),
            StoreRequest::UpdateProduct(changes) => self.update_product(changes),
            StoreRequest::UpdateReceipt(changes) => self.update_receipt(changes),
            StoreRequest::UpdateInventory(row) => self.update_inventory(row),
            _ => self,
        }
    }

    /// Whether the store accepts `request`. An insert is rejected when the
    /// table has run out of identifiers, a fetch when the row is missing, a
    /// change to a currency, store or product when the row is missing or
    /// nothing is to be changed.
    pub open spec fn accepts(self, request: StoreRequest) -> bool {
        match request {
            StoreRequest::InsertCurrency(_) => self.next_currency_id < i32::MAX,
            StoreRequest::InsertStore(_) => self.next_store_id < i32::MAX,
            StoreRequest::InsertProduct(_) => self.next_product_id < i32::MAX,
            StoreRequest::InsertReceipt(_) => self.next_receipt_id < i32::MAX,
            StoreRequest::InsertInventory(_) => self.next_inventory_id < i32::MAX,
            StoreRequest::FetchReceipt(id) => has_key(self.receipts, id),
            StoreRequest::FetchInventory(id) => has_key(self.inventories, id),
            StoreRequest::UpdateCurrency(changes) => has_key(self.currencies, changes.id),
            StoreRequest::UpdateStore(changes) => !changes.is_empty() && has_key(
                self.stores,
                changes.id,
            ),
            StoreRequest::UpdateProduct(changes) => !changes.is_empty() && has_key(
                self.products,
                changes.id,
            ),
            _ => true,
        }
    }

    /// Whether `reply` is the answer to `request`, where the store accepts it.
    pub open spec fn answers(self, request: StoreRequest, reply: StoreReply) -> bool {
        match request {
            StoreRequest::CurrencyExistsById(id) => reply == StoreReply::Flag(
                has_key(self.currencies, id),
            ),
            StoreRequest::CurrencyExistsByName(name) => reply == StoreReply::Flag(
                self.currency_named(name@),
            ),
            StoreRequest::StoreExistsById(id) => reply == StoreReply::Flag(
                has_key(self.stores, id),
            ),
            StoreRequest::StoreExistsByNameAndBranch(name, branch) => reply == StoreReply::Flag(
                self.store_matching(name@, crate::text::text_view(branch)),
            ),
            StoreRequest::ProductExistsById(id) => reply == StoreReply::Flag(
                has_key(self.products, id),
            ),
            StoreRequest::ProductExistsByName(attributes) => reply == StoreReply::Flag(
                self.product_described(attributes),
            ),
            StoreRequest::InsertCurrency(_) => reply == StoreReply::Id(self.next_currency_id),
            StoreRequest::InsertStore(_) => reply == StoreReply::Id(self.next_store_id),
            StoreRequest::InsertProduct(_) => reply == StoreReply::Id(self.next_product_id),
            StoreRequest::InsertReceipt(_) => reply == StoreReply::Id(self.next_receipt_id),
            StoreRequest::InsertInventory(_) => reply == StoreReply::Id(self.next_inventory_id),
            StoreRequest::ReceiptExists(id) => reply == StoreReply::Flag(
                has_key(self.receipts, id),
            ),
            StoreRequest::InventoryProductPairs(receipt) => reply matches StoreReply::Pairs(pairs)
                && pairs@ == self.pairs_of(receipt),
            StoreRequest::ProductUnreferenced(product) => reply == StoreReply::Flag(
                !self.product_in_use(product),
            ),
            StoreRequest::FetchReceipt(id) => reply == StoreReply::Receipt(
                row_with_key(self.receipts, id),
            ),
            StoreRequest::StoreUnreferenced(store) => reply == StoreReply::Flag(
                !self.store_in_use(store),
            ),
            StoreRequest::CurrencyUnreferenced(currency) => reply == StoreReply::Flag(
                !self.currency_in_use(currency),
            ),
            StoreRequest::FetchInventory(id) => reply == StoreReply::Inventory(
                row_with_key(self.inventories, id),
            ),
            _ => reply == StoreReply::Done,
        }
    }

    /// What an honest store does with `request`: where it accepts the
    /// request, it gives the answer and holds the new contents; where it
    /// rejects it, it answers `Failed` and nothing changes.
    pub open spec fn serves(self, request: StoreRequest, reply: StoreReply, next: Database) -> bool {
        if self.accepts(request) {
            self.answers(request, reply) && next == self.after(request)
        } else {
            reply == StoreReply::Failed && next == self
        }
    }
}

} // verus!
