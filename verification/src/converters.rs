//! Rows of the store as the responses that the endpoints serve.

use crate::entities::{EntityCurrency, EntityInventory, EntityProduct, EntityReceipt, EntityStore};
use crate::responses::{
    ResponseCurrency, ResponseCustomizedInventory, ResponseInventory, ResponseProduct,
    ResponseReceipt, ResponseStore,
};
use std::collections::HashMap;
use vstd::prelude::*;

verus! {

/// A currency row as a response.
pub open spec fn currency_response(currency: EntityCurrency) -> ResponseCurrency {
    ResponseCurrency { id: currency.id, name: currency.name }
}

/// A store row as a response.
pub open spec fn store_response(store: EntityStore) -> ResponseStore {
    ResponseStore {
        id: store.id,
        name: store.name,
        alias: store.alias,
        branch: store.branch,
        address: store.address,
    }
}

/// A product row as a response.
pub open spec fn product_response(product: EntityProduct) -> ResponseProduct {
    ResponseProduct {
        id: product.id,
        name: product.name,
        alias: product.alias,
        specification_amount: product.specification_amount,
        specification_unit: product.specification_unit,
        specification_others: product.specification_others,
        brand: product.brand,
    }
}

/// An inventory line with its product as a response.
pub open spec fn inventory_response(line: (EntityInventory, EntityProduct)) -> ResponseInventory {
    ResponseInventory {
        id: line.0.id,
        product: product_response(line.1),
        price: line.0.price,
        quantity: line.0.quantity,
    }
}

/// An inventory line with its product, receipt, store and currency as a
/// response.
pub open spec fn customized_response(
    inventory: EntityInventory,
    product: EntityProduct,
    receipt: EntityReceipt,
    store: EntityStore,
    currency: EntityCurrency,
) -> ResponseCustomizedInventory {
    ResponseCustomizedInventory {
        id: inventory.id,
        product: product_response(product),
        price: inventory.price,
        receipt_id: receipt.id,
        taxed: receipt.is_inventory_taxed,
        transaction_date: receipt.transaction_date,
        store_id: store.id,
        store_name: store.name,
        store_alias: store.alias,
        currency: currency_response(currency),
    }
}

pub open spec fn to_currency_response() -> spec_fn(EntityCurrency) -> ResponseCurrency {
    |currency: EntityCurrency| currency_response(currency)
}

pub open spec fn to_store_response() -> spec_fn(EntityStore) -> ResponseStore {
    |store: EntityStore| store_response(store)
}

pub open spec fn to_product_response() -> spec_fn(EntityProduct) -> ResponseProduct {
    |product: EntityProduct| product_response(product)
}

pub open spec fn to_inventory_response() -> spec_fn((EntityInventory, EntityProduct))
    -> ResponseInventory {
    |line: (EntityInventory, EntityProduct)| inventory_response(line)
}

/// Whether a line with its product belongs to the receipt.
pub open spec fn belongs_to(receipt: i32) -> spec_fn((EntityInventory, EntityProduct)) -> bool {
    |line: (EntityInventory, EntityProduct)| line.0.receipt_id == receipt
}

/// The responses for the lines of the receipt among `lines`, in their order.
pub open spec fn inventories_of(lines: Seq<(EntityInventory, EntityProduct)>, receipt: i32) -> Seq<
    ResponseInventory,
> {
    lines.filter(belongs_to(receipt)).map_values(to_inventory_response())
}

/// Whether a receipt with the identifier `receipt` is among `receipts`.
pub open spec fn has_receipt(
    receipts: Seq<(EntityReceipt, EntityStore, EntityCurrency)>,
    receipt: i32,
) -> bool {
    exists|k: int| 0 <= k < receipts.len() && (#[trigger] receipts[k]).0.id == receipt
}

/// The receipts by their identifiers. Of two receipts with one identifier
/// the later one counts.
pub open spec fn receipts_by_id(receipts: Seq<(EntityReceipt, EntityStore, EntityCurrency)>) -> Map<
    i32,
    (EntityReceipt, EntityStore, EntityCurrency),
>
    decreases receipts.len(),
{
    if receipts.len() == 0 {
        Map::empty()
    } else {
        receipts_by_id(receipts.drop_last()).insert(receipts.last().0.id, receipts.last())
    }
}

/// The response for a line with what its receipt among `receipts` says of
/// the purchase.
pub open spec fn customized_of(
    line: (EntityInventory, EntityProduct),
    receipts: Seq<(EntityReceipt, EntityStore, EntityCurrency)>,
) -> ResponseCustomizedInventory {
    let row = receipts_by_id(receipts)[line.0.receipt_id];
    customized_response(line.0, line.1, row.0, row.1, row.2)
}

/// The identifiers under which receipts are found are those of the
/// receipts, and the receipt that is found under an identifier has it.
pub proof fn lemma_receipts_by_id(
    receipts: Seq<(EntityReceipt, EntityStore, EntityCurrency)>,
    receipt: i32,
)
    ensures
        receipts_by_id(receipts).contains_key(receipt) == has_receipt(receipts, receipt),
        has_receipt(receipts, receipt) ==> receipts.contains(receipts_by_id(receipts)[receipt])
            && receipts_by_id(receipts)[receipt].0.id == receipt,
    decreases receipts.len(),
{
    if receipts.len() > 0 {
        let front = receipts.drop_last();
        lemma_receipts_by_id(front, receipt);
        if has_receipt(front, receipt) {
            let k = choose|k: int| 0 <= k < front.len() && (#[trigger] front[k]).0.id == receipt;
            assert(receipts[k].0.id == receipt);
            let found = receipts_by_id(front)[receipt];
            let m = choose|m: int| 0 <= m < front.len() && front[m] == found;
            assert(receipts[m] == found);
        }
        if has_receipt(receipts, receipt) {
            let k = choose|k: int|
                0 <= k < receipts.len() && (#[trigger] receipts[k]).0.id == receipt;
            if k < front.len() {
                assert(front[k].0.id == receipt);
            }
        }
        assert(receipts[receipts.len() - 1] == receipts.last());
    }
}

pub open spec fn to_customized(receipts: Seq<(EntityReceipt, EntityStore, EntityCurrency)>)
    -> spec_fn((EntityInventory, EntityProduct)) -> ResponseCustomizedInventory {
    |line: (EntityInventory, EntityProduct)| customized_of(line, receipts)
}

pub struct ConverterService {}

impl ConverterService {
    pub fn new() -> (service: Self) {
        Self {  }
    }

    pub fn convert_to_currency_response(&self, currency: EntityCurrency) -> (response:
        ResponseCurrency)
        ensures
            response == currency_response(currency),
    {
        ResponseCurrency { id: currency.id, name: currency.name }
    }

    pub fn convert_to_store_response(&self, store: EntityStore) -> (response: ResponseStore)
        ensures
            response == store_response(store),
    {
        ResponseStore {
            id: store.id,
            name: store.name,
            alias: store.alias,
            branch: store.branch,
            address: store.address,
        }
    }

    pub fn convert_to_product_response(&self, product: EntityProduct) -> (response: ResponseProduct)
        ensures
            response == product_response(product),
    {
        ResponseProduct {
            id: product.id,
            name: product.name,
            alias: product.alias,
            specification_amount: product.specification_amount,
            specification_others: product.specification_others,
            specification_unit: product.specification_unit,
            brand: product.brand,
        }
    }

    pub fn convert_to_inventory_response(
        &self,
        inventory: EntityInventory,
        product: EntityProduct,
    ) -> (response: ResponseInventory)
        ensures
            response == inventory_response((inventory, product)),
    {
        ResponseInventory {
            id: inventory.id,
            price: inventory.price,
            quantity: inventory.quantity,
            product: self.convert_to_product_response(product),
        }
    }

    /// A receipt with its currency, its store and the responses for its
    /// lines.
    pub fn convert_to_receipt_response(
        &self,
        receipt: EntityReceipt,
        currency: EntityCurrency,
        store: EntityStore,
        inventories: Vec<ResponseInventory>,
    ) -> (response: ResponseReceipt)
        ensures
            response == (ResponseReceipt {
                id: receipt.id,
                transaction_date: receipt.transaction_date,
                is_inventory_taxed: receipt.is_inventory_taxed,
                currency: currency_response(currency),
                store: store_response(store),
                inventories,
            }),
    {
        ResponseReceipt {
            id: receipt.id,
            transaction_date: receipt.transaction_date,
            is_inventory_taxed: receipt.is_inventory_taxed,
            currency: self.convert_to_currency_response(currency),
            store: self.convert_to_store_response(store),
            inventories,
        }
    }

    pub fn convert_to_customized_inventory_response(
        &self,
        inventory: EntityInventory,
        product: EntityProduct,
        receipt: EntityReceipt,
        store: EntityStore,
        currency: EntityCurrency,
    ) -> (response: ResponseCustomizedInventory)
        ensures
            response == customized_response(inventory, product, receipt, store, currency),
    {
        ResponseCustomizedInventory {
            id: inventory.id,
            product: self.convert_to_product_response(product),
            price: inventory.price,
            receipt_id: receipt.id,
            taxed: receipt.is_inventory_taxed,
            transaction_date: receipt.transaction_date,
            store_id: store.id,
            store_name: store.name,
            store_alias: store.alias,
            currency: self.convert_to_currency_response(currency),
        }
    }

    /// The responses for the rows, in their order.
    pub fn convert_to_all_currencies_response(&self, entity_currencies: Vec<EntityCurrency>) -> (responses:
        Vec<ResponseCurrency>)
        ensures
            responses@ == entity_currencies@.map_values(to_currency_response()),
    {
        let mut responses: Vec<ResponseCurrency> = Vec::new();
        let mut i: usize = 0;
        while i < entity_currencies.len()
            invariant
                i <= entity_currencies.len(),
                responses@ == entity_currencies@.take(i as int).map_values(to_currency_response()),
            decreases entity_currencies.len() - i,
        {
            responses.push(self.convert_to_currency_response(entity_currencies[i].clone()));
            proof {
                assert(entity_currencies@.take(i + 1) =~= entity_currencies@.take(i as int).push(
                    entity_currencies@[i as int],
                ));
                assert(responses@ =~= entity_currencies@.take(i + 1).map_values(
                    to_currency_response(),
                ));
            }
            i += 1;
        }
        proof {
            assert(entity_currencies@.take(i as int) =~= entity_currencies@);
        }
        responses
    }

    /// The responses for the rows, in their order.
    pub fn convert_to_all_stores_response(&self, entity_stores: Vec<EntityStore>) -> (responses: Vec<
        ResponseStore,
    >)
        ensures
            responses@ == entity_stores@.map_values(to_store_response()),
    {
        let mut responses: Vec<ResponseStore> = Vec::new();
        let mut i: usize = 0;
        while i < entity_stores.len()
            invariant
                i <= entity_stores.len(),
                responses@ == entity_stores@.take(i as int).map_values(to_store_response()),
            decreases entity_stores.len() - i,
        {
            responses.push(self.convert_to_store_response(entity_stores[i].clone()));
            proof {
                assert(entity_stores@.take(i + 1) =~= entity_stores@.take(i as int).push(
                    entity_stores@[i as int],
                ));
                assert(responses@ =~= entity_stores@.take(i + 1).map_values(to_store_response()));
            }
            i += 1;
        }
        proof {
            assert(entity_stores@.take(i as int) =~= entity_stores@);
        }
        responses
    }

    /// The responses for the rows, in their order.
    pub fn convert_to_all_products_response(&self, entity_products: Vec<EntityProduct>) -> (responses:
        Vec<ResponseProduct>)
        ensures
            responses@ == entity_products@.map_values(to_product_response()),
    {
        let mut responses: Vec<ResponseProduct> = Vec::new();
        let mut i: usize = 0;
        while i < entity_products.len()
            invariant
                i <= entity_products.len(),
                responses@ == entity_products@.take(i as int).map_values(to_product_response()),
            decreases entity_products.len() - i,
        {
            responses.push(self.convert_to_product_response(entity_products[i].clone()));
            proof {
                assert(entity_products@.take(i + 1) =~= entity_products@.take(i as int).push(
                    entity_products@[i as int],
                ));
                assert(responses@ =~= entity_products@.take(i + 1).map_values(
                    to_product_response(),
                ));
            }
            i += 1;
        }
        proof {
            assert(entity_products@.take(i as int) =~= entity_products@);
        }
        responses
    }

    /// The responses for the lines, in their order.
    fn responses_of_lines(&self, lines: &Vec<(EntityInventory, EntityProduct)>) -> (responses: Vec<
        ResponseInventory,
    >)
        ensures
            responses@ == lines@.map_values(to_inventory_response()),
    {
        let mut responses: Vec<ResponseInventory> = Vec::new();
        let mut i: usize = 0;
        while i < lines.len()
            invariant
                i <= lines.len(),
                responses@ == lines@.take(i as int).map_values(to_inventory_response()),
            decreases lines.len() - i,
        {
            let line = &lines[i];
            responses.push(self.convert_to_inventory_response(line.0.clone(), line.1.clone()));
            proof {
                assert(lines@.take(i + 1) =~= lines@.take(i as int).push(lines@[i as int]));
                assert(responses@ =~= lines@.take(i + 1).map_values(to_inventory_response()));
            }
            i += 1;
        }
        proof {
            assert(lines@.take(i as int) =~= lines@);
        }
        responses
    }

    /// The responses for the lines, in their order.
    pub fn convert_to_all_inventories_response(
        &self,
        compound_inventories: Vec<(EntityInventory, EntityProduct)>,
    ) -> (responses: Vec<ResponseInventory>)
        ensures
            responses@ == compound_inventories@.map_values(to_inventory_response()),
    {
        self.responses_of_lines(&compound_inventories)
    }

    /// The lines by the receipt that they belong to, each group in the
    /// order of the lines. A receipt without a line has no group.
    fn group_lines(&self, lines: &Vec<(EntityInventory, EntityProduct)>) -> (groups: HashMap<
        i32,
        Vec<(EntityInventory, EntityProduct)>,
    >)
        ensures
            forall|receipt: i32| #[trigger]
                groups@.contains_key(receipt) ==> groups@[receipt]@ == lines@.filter(
                    belongs_to(receipt),
                ),
            forall|receipt: i32|
                !(#[trigger] groups@.contains_key(receipt)) ==> lines@.filter(
                    belongs_to(receipt),
                ).len() == 0,
    {
        let mut groups: HashMap<i32, Vec<(EntityInventory, EntityProduct)>> = HashMap::new();
        let mut i: usize = 0;
        proof {
            assert(lines@.take(0) =~= Seq::<(EntityInventory, EntityProduct)>::empty());
            assert forall|receipt: i32|
                lines@.take(0).filter(belongs_to(receipt)).len() == 0 by {
                crate::tables::lemma_filter_of_nothing::<(EntityInventory, EntityProduct)>(
                    belongs_to(receipt),
                );
            }
        }
        while i < lines.len()
            invariant
                i <= lines.len(),
                forall|receipt: i32| #[trigger]
                    groups@.contains_key(receipt) ==> groups@[receipt]@ == lines@.take(
                        i as int,
                    ).filter(belongs_to(receipt)),
                forall|receipt: i32|
                    !(#[trigger] groups@.contains_key(receipt)) ==> lines@.take(i as int).filter(
                        belongs_to(receipt),
                    ).len() == 0,
            decreases lines.len() - i,
        {
            let ghost before = groups@;
            let ghost seen = lines@.take(i as int);
            let line = &lines[i];
            let owner = line.0.receipt_id;
            let mut group = match groups.remove(&owner) {
                Some(group) => group,
                None => Vec::new(),
            };
            group.push((line.0.clone(), line.1.clone()));
            groups.insert(owner, group);
            proof {
                assert(lines@.take(i + 1) =~= seen.push(lines@[i as int]));
                assert(groups@ =~= before.insert(owner, group));
                assert forall|receipt: i32|
                    seen.push(lines@[i as int]).filter(belongs_to(receipt)) == (if receipt
                        == owner {
                        seen.filter(belongs_to(receipt)).push(lines@[i as int])
                    } else {
                        seen.filter(belongs_to(receipt))
                    }) by {
                    seen.lemma_filter_push(lines@[i as int], belongs_to(receipt));
                }
                assert(group@ =~= seen.filter(belongs_to(owner)).push(lines@[i as int])) by {
                    if !before.contains_key(owner) {
                        assert(seen.filter(belongs_to(owner)) =~= Seq::<
                            (EntityInventory, EntityProduct),
                        >::empty());
                    }
                }
            }
            i += 1;
        }
        proof {
            assert(lines@.take(i as int) =~= lines@);
        }
        groups
    }

    /// The response for each receipt, in their order, each with the
    /// responses for its own lines among `compound_inventories`. A receipt
    /// without lines gets an empty list.
    pub fn convert_to_all_receipt_response(
        &self,
        compound_receipts: Vec<(EntityReceipt, EntityCurrency, EntityStore)>,
        compound_inventories: Vec<(EntityInventory, EntityProduct)>,
    ) -> (receipts: Vec<ResponseReceipt>)
        ensures
            receipts@.len() == compound_receipts@.len(),
            forall|i: int|
                0 <= i < receipts@.len() ==> {
                    let (receipt, currency, store) = compound_receipts@[i];
                    &&& (#[trigger] receipts@[i]).id == receipt.id
                    &&& receipts@[i].transaction_date == receipt.transaction_date
                    &&& receipts@[i].is_inventory_taxed == receipt.is_inventory_taxed
                    &&& receipts@[i].currency == currency_response(currency)
                    &&& receipts@[i].store == store_response(store)
                    &&& receipts@[i].inventories@ == inventories_of(
                        compound_inventories@,
                        receipt.id,
                    )
                },
    {
        let groups = self.group_lines(&compound_inventories);
        let mut receipts: Vec<ResponseReceipt> = Vec::new();
        let mut i: usize = 0;
        while i < compound_receipts.len()
            invariant
                i <= compound_receipts.len(),
                receipts@.len() == i,
                forall|receipt: i32| #[trigger]
                    groups@.contains_key(receipt) ==> groups@[receipt]@
                        == compound_inventories@.filter(belongs_to(receipt)),
                forall|receipt: i32|
                    !(#[trigger] groups@.contains_key(receipt)) ==> compound_inventories@.filter(
                        belongs_to(receipt),
                    ).len() == 0,
                forall|k: int|
                    0 <= k < i ==> {
                        let (receipt, currency, store) = compound_receipts@[k];
                        &&& (#[trigger] receipts@[k]).id == receipt.id
                        &&& receipts@[k].transaction_date == receipt.transaction_date
                        &&& receipts@[k].is_inventory_taxed == receipt.is_inventory_taxed
                        &&& receipts@[k].currency == currency_response(currency)
                        &&& receipts@[k].store == store_response(store)
                        &&& receipts@[k].inventories@ == inventories_of(
                            compound_inventories@,
                            receipt.id,
                        )
                    },
            decreases compound_receipts.len() - i,
        {
            let row = &compound_receipts[i];
            let inventories = match groups.get(&row.0.id) {
                Some(group) => self.responses_of_lines(group),
                None => Vec::new(),
            };
            proof {
                assert(inventories@ =~= inventories_of(compound_inventories@, row.0.id));
            }
            receipts.push(
                self.convert_to_receipt_response(row.0, row.1.clone(), row.2.clone(), inventories),
            );
            i += 1;
        }
        receipts
    }

    /// The receipts by their identifiers.
    fn index_receipts(
        &self,
        compound_receipts: &Vec<(EntityReceipt, EntityStore, EntityCurrency)>,
    ) -> (by_id: HashMap<i32, (EntityReceipt, EntityStore, EntityCurrency)>)
        ensures
            by_id@ == receipts_by_id(compound_receipts@),
    {
        let mut by_id: HashMap<i32, (EntityReceipt, EntityStore, EntityCurrency)> = HashMap::new();
        let mut i: usize = 0;
        proof {
            assert(compound_receipts@.take(0) =~= Seq::<
                (EntityReceipt, EntityStore, EntityCurrency),
            >::empty());
            assert(by_id@ =~= receipts_by_id(compound_receipts@.take(0)));
        }
        while i < compound_receipts.len()
            invariant
                i <= compound_receipts.len(),
                by_id@ == receipts_by_id(compound_receipts@.take(i as int)),
            decreases compound_receipts.len() - i,
        {
            let row = &compound_receipts[i];
            by_id.insert(row.0.id, (row.0, row.1.clone(), row.2.clone()));
            proof {
                assert(compound_receipts@.take(i + 1).drop_last() =~= compound_receipts@.take(
                    i as int,
                ));
                assert(compound_receipts@.take(i + 1).last() == compound_receipts@[i as int]);
            }
            i += 1;
        }
        proof {
            assert(compound_receipts@.take(i as int) =~= compound_receipts@);
        }
        by_id
    }

    /// The response for each line, in their order, each with what its
    /// receipt among `compound_receipts` says of the purchase; of two
    /// receipts with one identifier the later one counts. None where the
    /// receipt of a line is not among them.
    pub fn convert_to_customized_inventories_response(
        &self,
        compound_inventories: Vec<(EntityInventory, EntityProduct)>,
        compound_receipts: Vec<(EntityReceipt, EntityStore, EntityCurrency)>,
    ) -> (responses: Option<Vec<ResponseCustomizedInventory>>)
        ensures
            responses is None <==> exists|i: int|
                0 <= i < compound_inventories@.len() && !has_receipt(
                    compound_receipts@,
                    (#[trigger] compound_inventories@[i]).0.receipt_id,
                ),
            responses matches Some(all) ==> all@ == compound_inventories@.map_values(
                to_customized(compound_receipts@),
            ),
    {
        let by_id = self.index_receipts(&compound_receipts);
        let mut all: Vec<ResponseCustomizedInventory> = Vec::new();
        let mut i: usize = 0;
        while i < compound_inventories.len()
            invariant
                i <= compound_inventories.len(),
                by_id@ == receipts_by_id(compound_receipts@),
                forall|k: int|
                    0 <= k < i ==> has_receipt(
                        compound_receipts@,
                        (#[trigger] compound_inventories@[k]).0.receipt_id,
                    ),
                all@ == compound_inventories@.take(i as int).map_values(
                    to_customized(compound_receipts@),
                ),
            decreases compound_inventories.len() - i,
        {
            let line = &compound_inventories[i];
            proof {
                lemma_receipts_by_id(compound_receipts@, line.0.receipt_id);
            }
            match by_id.get(&line.0.receipt_id) {
                None => {
                    return None;
                },
                Some(row) => {
                    all.push(
                        self.convert_to_customized_inventory_response(
                            line.0.clone(),
                            line.1.clone(),
                            row.0,
                            row.1.clone(),
                            row.2.clone(),
                        ),
                    );
                    proof {
                        assert(compound_inventories@.take(i + 1) =~= compound_inventories@.take(
                            i as int,
                        ).push(compound_inventories@[i as int]));
                        assert(all@ =~= compound_inventories@.take(i + 1).map_values(
                            to_customized(compound_receipts@),
                        ));
                    }
                },
            }
            i += 1;
        }
        proof {
            assert(compound_inventories@.take(i as int) =~= compound_inventories@);
        }
        Some(all)
    }
}

} // verus!
