//! Payloads of the write requests.

use crate::decimal::Decimal;
use crate::entities::{NewEntityCurrency, NewEntityProduct, NewEntityStore, ProductAttributes};
use crate::temporal::DateTime;
use crate::text::clone_text;
use vstd::prelude::*;

verus! {

/// A reference to a currency, store or product inside a receipt payload: it
/// may carry the identifier of an existing row, the name of a new one, both
/// or neither.
pub trait FormRelationshipModelIdOrName {
    /// The identifier that the reference carries.
    spec fn id_field(&self) -> Option<i32>;

    /// The name that the reference carries.
    spec fn name_field(&self) -> Option<String>;

    fn get_id_field(&self) -> (id: Option<i32>)
        ensures
            id == self.id_field(),
    ;

    fn get_name_field(&self) -> (name: Option<String>)
        ensures
            name == self.name_field(),
    ;
}

#[derive(Debug, PartialEq, Eq)]
pub struct CreateCurrencyInReceiptPayload {
    pub id: Option<i32>,
    pub name: Option<String>,
}

impl FormRelationshipModelIdOrName for CreateCurrencyInReceiptPayload {
    open spec fn id_field(&self) -> Option<i32> {
        self.id
    }

    open spec fn name_field(&self) -> Option<String> {
        self.name
    }

    fn get_id_field(&self) -> (id: Option<i32>) {
        self.id
    }

    fn get_name_field(&self) -> (name: Option<String>) {
        clone_text(&self.name)
    }
}

impl Clone for CreateCurrencyInReceiptPayload {
    fn clone(&self) -> (copy: Self)
        ensures
            copy == *self,
    {
        Self { id: self.id, name: clone_text(&self.name) }
    }
}

#[derive(Debug, PartialEq, Eq)]
pub struct CreateStoreInReceiptPayload {
    pub id: Option<i32>,
    pub name: Option<String>,
    pub alias: Option<String>,
    pub branch: Option<String>,
    pub address: Option<String>,
}

impl FormRelationshipModelIdOrName for CreateStoreInReceiptPayload {
    open spec fn id_field(&self) -> Option<i32> {
        self.id
    }

    open spec fn name_field(&self) -> Option<String> {
        self.name
    }

    fn get_id_field(&self) -> (id: Option<i32>) {
        self.id
    }

    fn get_name_field(&self) -> (name: Option<String>) {
        clone_text(&self.name)
    }
}

impl Clone for CreateStoreInReceiptPayload {
    fn clone(&self) -> (copy: Self)
        ensures
            copy == *self,
    {
        Self {
            id: self.id,
            name: clone_text(&self.name),
            alias: clone_text(&self.alias),
            branch: clone_text(&self.branch),
            address: clone_text(&self.address),
        }
    }
}

#[derive(Debug, PartialEq, Eq)]
pub struct CreateProductInReceiptPayload {
    pub id: Option<i32>,
    pub name: Option<String>,
    pub alias: Option<String>,
    pub specification_amount: Option<i32>,
    pub specification_unit: Option<String>,
    pub specification_others: Option<String>,
    pub brand: Option<String>,
}

impl FormRelationshipModelIdOrName for CreateProductInReceiptPayload {
    open spec fn id_field(&self) -> Option<i32> {
        self.id
    }

    open spec fn name_field(&self) -> Option<String> {
        self.name
    }

    fn get_id_field(&self) -> (id: Option<i32>) {
        self.id
    }

    fn get_name_field(&self) -> (name: Option<String>) {
        clone_text(&self.name)
    }
}

impl Clone for CreateProductInReceiptPayload {
    fn clone(&self) -> (copy: Self)
        ensures
            copy == *self,
    {
        Self {
            id: self.id,
            name: clone_text(&self.name),
            alias: clone_text(&self.alias),
            specification_amount: self.specification_amount,
            specification_unit: clone_text(&self.specification_unit),
            specification_others: clone_text(&self.specification_others),
            brand: clone_text(&self.brand),
        }
    }
}

impl CreateCurrencyInReceiptPayload {
    /// The currency that the reference describes, where it gives a name.
    pub open spec fn described(self) -> Option<NewEntityCurrency> {
        match self.name {
            Some(name) => Some(NewEntityCurrency { name }),
            None => None,
        }
    }

    pub fn describe(&self) -> (new: Option<NewEntityCurrency>)
        ensures
            new == self.described(),
    {
        match &self.name {
            Some(name) => Some(NewEntityCurrency { name: name.clone() }),
            None => None,
        }
    }
}

impl CreateStoreInReceiptPayload {
    /// The store that the reference describes, where it gives a name.
    pub open spec fn described(self) -> Option<NewEntityStore> {
        match self.name {
            Some(name) => Some(
                NewEntityStore {
                    name,
                    alias: self.alias,
                    branch: self.branch,
                    address: self.address,
                },
            ),
            None => None,
        }
    }

    pub fn describe(&self) -> (new: Option<NewEntityStore>)
        ensures
            new == self.described(),
    {
        match &self.name {
            Some(name) => Some(
                NewEntityStore {
                    name: name.clone(),
                    alias: clone_text(&self.alias),
                    branch: clone_text(&self.branch),
                    address: clone_text(&self.address),
                },
            ),
            None => None,
        }
    }
}

impl CreateProductInReceiptPayload {
    /// The product that the reference describes, where it gives a name.
    pub open spec fn described(self) -> Option<NewEntityProduct> {
        match self.name {
            Some(name) => Some(
                NewEntityProduct {
                    name,
                    alias: self.alias,
                    brand: self.brand,
                    specification_amount: self.specification_amount,
                    specification_unit: self.specification_unit,
                    specification_others: self.specification_others,
                },
            ),
            None => None,
        }
    }

    pub fn describe(&self) -> (new: Option<NewEntityProduct>)
        ensures
            new == self.described(),
    {
        match &self.name {
            Some(name) => Some(
                NewEntityProduct {
                    name: name.clone(),
                    alias: clone_text(&self.alias),
                    brand: clone_text(&self.brand),
                    specification_amount: self.specification_amount,
                    specification_unit: clone_text(&self.specification_unit),
                    specification_others: clone_text(&self.specification_others),
                },
            ),
            None => None,
        }
    }

    /// The attributes by which the product is looked up, where the reference
    /// gives a name: the alias is not among them.
    pub open spec fn attributes(self) -> Option<ProductAttributes> {
        match self.name {
            Some(name) => Some(
                ProductAttributes {
                    name,
                    brand: self.brand,
                    specification_amount: self.specification_amount,
                    specification_unit: self.specification_unit,
                    specification_others: self.specification_others,
                },
            ),
            None => None,
        }
    }

    pub fn get_attributes(&self) -> (attributes: Option<ProductAttributes>)
        ensures
            attributes == self.attributes(),
    {
        match &self.name {
            Some(name) => Some(
                ProductAttributes {
                    name: name.clone(),
                    brand: clone_text(&self.brand),
                    specification_amount: self.specification_amount,
                    specification_unit: clone_text(&self.specification_unit),
                    specification_others: clone_text(&self.specification_others),
                },
            ),
            None => None,
        }
    }
}

/// One line of a receipt: a product, its price and the quantity bought.
#[derive(Debug, PartialEq, Eq)]
pub struct CreateInventoryInReceiptPayload {
    pub price: Decimal,
    pub quantity: i32,
    pub product: CreateProductInReceiptPayload,
}

impl Clone for CreateInventoryInReceiptPayload {
    fn clone(&self) -> (copy: Self)
        ensures
            copy == *self,
    {
        Self {
            price: self.price.clone(),
            quantity: self.quantity,
            product: self.product.clone(),
        }
    }
}

/// A receipt to create. `transaction_id` is the token under which the
/// receipt can be found again; the server assigns it, whatever the client
/// sent.
#[derive(Debug, PartialEq, Eq)]
pub struct CreateReceiptPayload {
    pub transaction_id: Option<u128>,
    pub transaction_date: DateTime,
    pub is_inventory_taxed: bool,
    pub currency: CreateCurrencyInReceiptPayload,
    pub store: CreateStoreInReceiptPayload,
    pub inventories: Vec<CreateInventoryInReceiptPayload>,
}

#[derive(Debug, PartialEq, Eq)]
pub struct PatchCurrencyPayload {
    pub name: String,
}

/// Changes to a store. An absent field is left alone; `Some(None)` clears an
/// optional field.
#[derive(Debug, PartialEq, Eq)]
pub struct PatchStorePayload {
    pub name: Option<String>,
    pub alias: Option<Option<String>>,
    pub branch: Option<Option<String>>,
    pub address: Option<Option<String>>,
}

/// Changes to a product. An absent field is left alone; `Some(None)` clears
/// an optional field.
#[derive(Debug, PartialEq, Eq)]
pub struct PatchProductPayload {
    pub name: Option<String>,
    pub alias: Option<Option<String>>,
    pub specification_amount: Option<Option<i32>>,
    pub specification_unit: Option<Option<String>>,
    pub specification_others: Option<Option<String>>,
    pub brand: Option<Option<String>>,
}

#[derive(Debug, PartialEq, Eq)]
pub struct PatchInventoryPayload {
    pub price: Option<Decimal>,
    pub quantity: Option<i32>,
}

#[derive(Clone, Copy, Debug, PartialEq, Eq)]
pub struct PatchReceiptPayload {
    pub transaction_date: Option<DateTime>,
    pub is_inventory_taxed: Option<bool>,
}

} // verus!
