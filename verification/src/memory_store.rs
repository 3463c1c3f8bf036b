//! A storage gateway that keeps its tables in memory.
//!
//! It answers every request of the protocol as the model in
//! [`crate::database`] says an honest store does, so a workflow can be run
//! against it from start to end.

use crate::database::{
    currency_change, distinct_keys, has_key, inventory_change, line_of_receipt, pair_of_line,
    product_change, receipt_change, store_change, table_wf, without_key_keep, without_keys_keep,
    Database,
};
use crate::entities::{
    EntityCurrency, EntityInventory, EntityProduct, EntityReceipt, EntityStore, Keyed,
    ProductAttributes,
};
use crate::gateway::{StoreReply, StoreRequest};
use crate::tables::{
    drop_key, drop_keys, lemma_filter_keeps_table, lemma_filter_of_nothing, lemma_row_with_key,
    position_of,
};
use crate::text::text_view;
use vstd::prelude::*;

verus! {

/// The five tables in memory.
pub struct MemoryStore {
    currencies: Vec<EntityCurrency>,
    stores: Vec<EntityStore>,
    products: Vec<EntityProduct>,
    receipts: Vec<EntityReceipt>,
    inventories: Vec<EntityInventory>,
    next_currency_id: i32,
    next_store_id: i32,
    next_product_id: i32,
    next_receipt_id: i32,
    next_inventory_id: i32,
}

impl View for MemoryStore {
    type V = Database;

    closed spec fn view(&self) -> Database {
        Database {
            currencies: self.currencies@,
            stores: self.stores@,
            products: self.products@,
            receipts: self.receipts@,
            inventories: self.inventories@,
            next_currency_id: self.next_currency_id,
            next_store_id: self.next_store_id,
            next_product_id: self.next_product_id,
            next_receipt_id: self.next_receipt_id,
            next_inventory_id: self.next_inventory_id,
        }
    }
}

/// A change that keeps each row's identifier keeps the table well formed
/// and keeps the set of identifiers.
pub proof fn lemma_change_keeps_table<T: Keyed>(rows: Seq<T>, change: spec_fn(T) -> T, next: i32)
    requires
        table_wf(rows, next),
        forall|row: T| (#[trigger] change(row)).key() == row.key(),
    ensures
        table_wf(rows.map_values(change), next),
        forall|id: i32| has_key(rows.map_values(change), id) == has_key(rows, id),
{
    let changed = rows.map_values(change);
    assert forall|i: int, j: int| 0 <= i < j < changed.len() implies (#[trigger] changed[i]).key()
        != (#[trigger] changed[j]).key() by {
        assert(changed[i] == change(rows[i]) && changed[j] == change(rows[j]));
        assert(rows[i].key() != rows[j].key());
    }
    assert forall|i: int| 0 <= i < changed.len() implies (#[trigger] changed[i]).key() < next by {
        assert(changed[i] == change(rows[i]));
        assert(rows[i].key() < next);
    }
    assert forall|id: i32| has_key(changed, id) == has_key(rows, id) by {
        if has_key(changed, id) {
            let k = choose|k: int| 0 <= k < changed.len() && (#[trigger] changed[k]).key() == id;
            assert(changed[k] == change(rows[k]));
            assert(rows[k].key() == id);
        }
        if has_key(rows, id) {
            let k = choose|k: int| 0 <= k < rows.len() && (#[trigger] rows[k]).key() == id;
            assert(changed[k] == change(rows[k]));
            assert(changed[k].key() == id);
        }
    }
}

/// In a table without repeated identifiers, a change that touches only the
/// rows with the identifier `id` changes the one row that has it.
pub proof fn lemma_change_one<T: Keyed>(rows: Seq<T>, change: spec_fn(T) -> T, place: int, id: i32)
    requires
        distinct_keys(rows),
        0 <= place < rows.len(),
        rows[place].key() == id,
        forall|row: T| row.key() != id ==> #[trigger] change(row) == row,
    ensures
        rows.update(place, change(rows[place])) == rows.map_values(change),
{
    assert forall|k: int| 0 <= k < rows.len() implies rows.update(place, change(rows[place]))[k]
        == rows.map_values(change)[k] by {
        if k < place {
            assert(rows[k].key() != rows[place].key());
        }
        if place < k {
            assert(rows[place].key() != rows[k].key());
        }
    }
    assert(rows.update(place, change(rows[place])) =~= rows.map_values(change));
}

/// A change that touches only the rows with the identifier `id` leaves a
/// table without such a row as it is.
pub proof fn lemma_change_none<T: Keyed>(rows: Seq<T>, change: spec_fn(T) -> T, id: i32)
    requires
        !has_key(rows, id),
        forall|row: T| row.key() != id ==> #[trigger] change(row) == row,
    ensures
        rows.map_values(change) == rows,
{
    assert forall|k: int| 0 <= k < rows.len() implies rows.map_values(change)[k] == rows[k] by {
        assert(rows[k].key() != id);
    }
    assert(rows.map_values(change) =~= rows);
}

/// A row with the table's next identifier keeps the table well formed.
pub proof fn lemma_insert_keeps_table<T: Keyed>(rows: Seq<T>, row: T, next: i32)
    requires
        table_wf(rows, next),
        row.key() == next,
        next < i32::MAX,
    ensures
        table_wf(rows.push(row), (next + 1) as i32),
{
    let all = rows.push(row);
    assert forall|i: int, j: int| 0 <= i < j < all.len() implies (#[trigger] all[i]).key() != (
    #[trigger] all[j]).key() by {
        assert(all[i] == rows[i]);
        if j < rows.len() {
            assert(all[j] == rows[j]);
        }
    }
    assert forall|i: int| 0 <= i < all.len() implies (#[trigger] all[i]).key() < next + 1 by {
        if i < rows.len() {
            assert(all[i] == rows[i]);
        }
    }
}

impl MemoryStore {
    /// A store without rows, whose first row in each table gets the
    /// identifier 1.
    pub fn new() -> (store: Self)
        ensures
            store@ == Database::empty(),
            store@.wf(),
    {
        MemoryStore {
            currencies: Vec::new(),
            stores: Vec::new(),
            products: Vec::new(),
            receipts: Vec::new(),
            inventories: Vec::new(),
            next_currency_id: 1,
            next_store_id: 1,
            next_product_id: 1,
            next_receipt_id: 1,
            next_inventory_id: 1,
        }
    }

    pub fn currencies(&self) -> (rows: &Vec<EntityCurrency>)
        ensures
            rows@ == self@.currencies,
    {
        &self.currencies
    }

    pub fn stores(&self) -> (rows: &Vec<EntityStore>)
        ensures
            rows@ == self@.stores,
    {
        &self.stores
    }

    pub fn products(&self) -> (rows: &Vec<EntityProduct>)
        ensures
            rows@ == self@.products,
    {
        &self.products
    }

    pub fn receipts(&self) -> (rows: &Vec<EntityReceipt>)
        ensures
            rows@ == self@.receipts,
    {
        &self.receipts
    }

    pub fn inventories(&self) -> (rows: &Vec<EntityInventory>)
        ensures
            rows@ == self@.inventories,
    {
        &self.inventories
    }

    fn currency_named(&self, name: &String) -> (found: bool)
        ensures
            found == self@.currency_named(name@),
    {
        let mut i: usize = 0;
        while i < self.currencies.len()
            invariant
                i <= self.currencies.len(),
                forall|k: int| 0 <= k < i ==> !(#[trigger] self.currencies@[k]).named(name@),
            decreases self.currencies.len() - i,
        {
            if self.currencies[i].is_named(name) {
                assert(self@.currencies[i as int].named(name@));
                return true;
            }
            i += 1;
        }
        false
    }

    fn store_matching(&self, name: &String, branch: &Option<String>) -> (found: bool)
        ensures
            found == self@.store_matching(name@, text_view(*branch)),
    {
        let mut i: usize = 0;
        while i < self.stores.len()
            invariant
                i <= self.stores.len(),
                forall|k: int|
                    0 <= k < i ==> !(#[trigger] self.stores@[k]).matches(name@, text_view(*branch)),
            decreases self.stores.len() - i,
        {
            if self.stores[i].is_match(name, branch) {
                assert(self@.stores[i as int].matches(name@, text_view(*branch)));
                return true;
            }
            i += 1;
        }
        false
    }

    fn product_described(&self, attributes: &ProductAttributes) -> (found: bool)
        ensures
            found == self@.product_described(*attributes),
    {
        let mut i: usize = 0;
        while i < self.products.len()
            invariant
                i <= self.products.len(),
                forall|k: int| 0 <= k < i ==> !attributes.describes(#[trigger] self.products@[k]),
            decreases self.products.len() - i,
        {
            if attributes.is_description_of(&self.products[i]) {
                assert(attributes.describes(self@.products[i as int]));
                return true;
            }
            i += 1;
        }
        false
    }

    fn product_in_use(&self, product: i32) -> (found: bool)
        ensures
            found == self@.product_in_use(product),
    {
        let mut i: usize = 0;
        while i < self.inventories.len()
            invariant
                i <= self.inventories.len(),
                forall|k: int| 0 <= k < i ==> (#[trigger] self.inventories@[k]).product_id != product,
            decreases self.inventories.len() - i,
        {
            if self.inventories[i].product_id == product {
                assert(self@.inventories[i as int].product_id == product);
                return true;
            }
            i += 1;
        }
        false
    }

    fn store_in_use(&self, store: i32) -> (found: bool)
        ensures
            found == self@.store_in_use(store),
    {
        let mut i: usize = 0;
        while i < self.receipts.len()
            invariant
                i <= self.receipts.len(),
                forall|k: int| 0 <= k < i ==> (#[trigger] self.receipts@[k]).store_id != store,
            decreases self.receipts.len() - i,
        {
            if self.receipts[i].store_id == store {
                assert(self@.receipts[i as int].store_id == store);
                return true;
            }
            i += 1;
        }
        false
    }

    fn currency_in_use(&self, currency: i32) -> (found: bool)
        ensures
            found == self@.currency_in_use(currency),
    {
        let mut i: usize = 0;
        while i < self.receipts.len()
            invariant
                i <= self.receipts.len(),
                forall|k: int| 0 <= k < i ==> (#[trigger] self.receipts@[k]).currency_id != currency,
            decreases self.receipts.len() - i,
        {
            if self.receipts[i].currency_id == currency {
                assert(self@.receipts[i as int].currency_id == currency);
                return true;
            }
            i += 1;
        }
        false
    }

    fn pairs_of(&self, receipt: i32) -> (pairs: Vec<(i32, i32)>)
        ensures
            pairs@ == self@.pairs_of(receipt),
    {
        let mut pairs: Vec<(i32, i32)> = Vec::new();
        let mut i: usize = 0;
        proof {
            assert(self.inventories@.take(0) =~= Seq::<EntityInventory>::empty());
            lemma_filter_of_nothing::<EntityInventory>(line_of_receipt(receipt));
            assert(pairs@ =~= self.inventories@.take(0).filter(line_of_receipt(receipt)).map_values(
                pair_of_line(),
            ));
        }
        while i < self.inventories.len()
            invariant
                i <= self.inventories.len(),
                pairs@ == self.inventories@.take(i as int).filter(
                    line_of_receipt(receipt),
                ).map_values(pair_of_line()),
            decreases self.inventories.len() - i,
        {
            broadcast use Seq::lemma_filter_push;

            let ghost before = self.inventories@.take(i as int).filter(line_of_receipt(receipt));
            proof {
                assert(self.inventories@.take(i + 1) =~= self.inventories@.take(i as int).push(
                    self.inventories@[i as int],
                ));
            }
            if self.inventories[i].receipt_id == receipt {
                pairs.push((self.inventories[i].id, self.inventories[i].product_id));
                proof {
                    assert(before.push(self.inventories@[i as int]).map_values(pair_of_line())
                        =~= before.map_values(pair_of_line()).push(
                        pair_of_line()(self.inventories@[i as int]),
                    ));
                }
            }
            i += 1;
        }
        proof {
            assert(self.inventories@.take(i as int) =~= self.inventories@);
        }
        pairs
    }

    /// Serves one request as an honest store does: the reply and the new
    /// contents are those that [`Database::serves`] describes.
    pub fn execute(&mut self, request: &StoreRequest) -> (reply: StoreReply)
        requires
            old(self)@.wf(),
        ensures
            final(self)@.wf(),
            old(self)@.serves(*request, reply, final(self)@),
    {
        match request {
            StoreRequest::CurrencyExistsById(id) => StoreReply::Flag(
                position_of(&self.currencies, *id).is_some(),
            ),
            StoreRequest::CurrencyExistsByName(name) => StoreReply::Flag(self.currency_named(name)),
            StoreRequest::StoreExistsById(id) => StoreReply::Flag(
                position_of(&self.stores, *id).is_some(),
            ),
            StoreRequest::StoreExistsByNameAndBranch(name, branch) => StoreReply::Flag(
                self.store_matching(name, branch),
            ),
            StoreRequest::ProductExistsById(id) => StoreReply::Flag(
                position_of(&self.products, *id).is_some(),
            ),
            StoreRequest::ProductExistsByName(attributes) => StoreReply::Flag(
                self.product_described(attributes),
            ),
            StoreRequest::InsertCurrency(new) => {
                if self.next_currency_id == i32::MAX {
                    return StoreReply::Failed;
                }
                let id = self.next_currency_id;
                proof {
                    lemma_insert_keeps_table(self.currencies@, new.row(id), id);
                }
                self.currencies.push(new.to_row(id));
                self.next_currency_id = id + 1;
                StoreReply::Id(id)
            },
            StoreRequest::InsertStore(new) => {
                if self.next_store_id == i32::MAX {
                    return StoreReply::Failed;
                }
                let id = self.next_store_id;
                proof {
                    lemma_insert_keeps_table(self.stores@, new.row(id), id);
                }
                self.stores.push(new.to_row(id));
                self.next_store_id = id + 1;
                StoreReply::Id(id)
            },
            StoreRequest::InsertProduct(new) => {
                if self.next_product_id == i32::MAX {
                    return StoreReply::Failed;
                }
                let id = self.next_product_id;
                proof {
                    lemma_insert_keeps_table(self.products@, new.row(id), id);
                }
                self.products.push(new.to_row(id));
                self.next_product_id = id + 1;
                StoreReply::Id(id)
            },
            StoreRequest::InsertReceipt(new) => {
                if self.next_receipt_id == i32::MAX {
                    return StoreReply::Failed;
                }
                let id = self.next_receipt_id;
                proof {
                    lemma_insert_keeps_table(self.receipts@, new.row(id), id);
                }
                self.receipts.push(new.to_row(id));
                self.next_receipt_id = id + 1;
                StoreReply::Id(id)
            },
            StoreRequest::InsertInventory(new) => {
                if self.next_inventory_id == i32::MAX {
                    return StoreReply::Failed;
                }
                let id = self.next_inventory_id;
                proof {
                    lemma_insert_keeps_table(self.inventories@, new.row(id), id);
                }
                self.inventories.push(new.to_row(id));
                self.next_inventory_id = id + 1;
                StoreReply::Id(id)
            },
            StoreRequest::ReceiptExists(id) => StoreReply::Flag(
                position_of(&self.receipts, *id).is_some(),
            ),
            StoreRequest::InventoryProductPairs(receipt) => StoreReply::Pairs(
                self.pairs_of(*receipt),
            ),
            StoreRequest::DeleteInventories(ids) => {
                proof {
                    lemma_filter_keeps_table(
                        self.inventories@,
                        without_keys_keep(ids@),
                        self.next_inventory_id,
                    );
                }
                drop_keys(&mut self.inventories, ids);
                StoreReply::Done
            },
            StoreRequest::ProductUnreferenced(product) => StoreReply::Flag(
                !self.product_in_use(*product),
            ),
            StoreRequest::DeleteProducts(ids) => {
                proof {
                    lemma_filter_keeps_table(
                        self.products@,
                        without_keys_keep(ids@),
                        self.next_product_id,
                    );
                }
                drop_keys(&mut self.products, ids);
                StoreReply::Done
            },
            StoreRequest::FetchReceipt(id) => {
                match position_of(&self.receipts, *id) {
                    Some(i) => {
                        proof {
                            lemma_row_with_key(self.receipts@, i as int);
                        }
                        StoreReply::Receipt(self.receipts[i])
                    },
                    None => StoreReply::Failed,
                }
            },
            StoreRequest::DeleteReceipt(id) => {
                proof {
                    lemma_filter_keeps_table(
                        self.receipts@,
                        without_key_keep(*id),
                        self.next_receipt_id,
                    );
                }
                drop_key(&mut self.receipts, *id);
                StoreReply::Done
            },
            StoreRequest::StoreUnreferenced(store) => StoreReply::Flag(!self.store_in_use(*store)),
            StoreRequest::DeleteStore(id) => {
                proof {
                    lemma_filter_keeps_table(self.stores@, without_key_keep(*id), self.next_store_id);
                }
                drop_key(&mut self.stores, *id);
                StoreReply::Done
            },
            StoreRequest::CurrencyUnreferenced(currency) => StoreReply::Flag(
                !self.currency_in_use(*currency),
            ),
            StoreRequest::DeleteCurrency(id) => {
                proof {
                    lemma_filter_keeps_table(
                        self.currencies@,
                        without_key_keep(*id),
                        self.next_currency_id,
                    );
                }
                drop_key(&mut self.currencies, *id);
                StoreReply::Done
            },
            StoreRequest::UpdateCurrency(changes) => {
                match position_of(&self.currencies, changes.id) {
                    None => StoreReply::Failed,
                    Some(place) => {
                        let changed = changes.apply(&self.currencies[place]);
                        proof {
                            let change = currency_change(*changes);
                            lemma_change_one(self.currencies@, change, place as int, changes.id);
                            lemma_change_keeps_table(
                                self.currencies@,
                                change,
                                self.next_currency_id,
                            );
                        }
                        self.currencies.set(place, changed);
                        StoreReply::Done
                    },
                }
            },
            StoreRequest::UpdateStore(changes) => {
                if changes.has_no_change() {
                    return StoreReply::Failed;
                }
                match position_of(&self.stores, changes.id) {
                    None => StoreReply::Failed,
                    Some(place) => {
                        let changed = changes.apply(&self.stores[place]);
                        proof {
                            let change = store_change(*changes);
                            lemma_change_one(self.stores@, change, place as int, changes.id);
                            lemma_change_keeps_table(self.stores@, change, self.next_store_id);
                        }
                        self.stores.set(place, changed);
                        StoreReply::Done
                    },
                }
            },
            StoreRequest::UpdateProduct(changes) => {
                if changes.has_no_change() {
                    return StoreReply::Failed;
                }
                match position_of(&self.products, changes.id) {
                    None => StoreReply::Failed,
                    Some(place) => {
                        let changed = changes.apply(&self.products[place]);
                        proof {
                            let change = product_change(*changes);
                            lemma_change_one(self.products@, change, place as int, changes.id);
                            lemma_change_keeps_table(self.products@, change, self.next_product_id);
                        }
                        self.products.set(place, changed);
                        StoreReply::Done
                    },
                }
            },
            StoreRequest::UpdateReceipt(changes) => {
                match position_of(&self.receipts, changes.id) {
                    None => {
                        proof {
                            lemma_change_none(
                                self.receipts@,
                                receipt_change(*changes),
                                changes.id,
                            );
                        }
                    },
                    Some(place) => {
                        let changed = changes.apply(&self.receipts[place]);
                        proof {
                            let change = receipt_change(*changes);
                            lemma_change_one(self.receipts@, change, place as int, changes.id);
                            lemma_change_keeps_table(self.receipts@, change, self.next_receipt_id);
                        }
                        self.receipts.set(place, changed);
                    },
                }
                StoreReply::Done
            },
            StoreRequest::FetchInventory(id) => {
                match position_of(&self.inventories, *id) {
                    Some(i) => {
                        proof {
                            lemma_row_with_key(self.inventories@, i as int);
                        }
                        StoreReply::Inventory(self.inventories[i].clone())
                    },
                    None => StoreReply::Failed,
                }
            },
            StoreRequest::UpdateInventory(new) => {
                match position_of(&self.inventories, new.id) {
                    None => {
                        proof {
                            lemma_change_none(self.inventories@, inventory_change(*new), new.id);
                        }
                    },
                    Some(place) => {
                        proof {
                            let change = inventory_change(*new);
                            lemma_change_one(self.inventories@, change, place as int, new.id);
                            lemma_change_keeps_table(
                                self.inventories@,
                                change,
                                self.next_inventory_id,
                            );
                        }
                        self.inventories.set(place, new.clone());
                    },
                }
                StoreReply::Done
            },
        }
    }
}

} // verus!
