//! Rows of the five tables, and the shapes in which rows are inserted and
//! changed.

use crate::decimal::Decimal;
use crate::temporal::DateTime;
use crate::text::{clone_text, clone_text_change, text_view};
use vstd::prelude::*;

verus! {

/// A row that is found by its identifier.
pub trait Keyed {
    /// The row's identifier.
    spec fn key(&self) -> i32;

    fn key_of(&self) -> (key: i32)
        ensures
            key == self.key(),
    ;
}

#[derive(Debug, PartialEq, Eq)]
pub struct EntityCurrency {
    pub id: i32,
    pub name: String,
}

#[derive(Debug, PartialEq, Eq)]
pub struct NewEntityCurrency {
    pub name: String,
}

#[derive(Debug, PartialEq, Eq)]
pub struct UpdateEntityCurrency {
    pub id: i32,
    pub name: String,
}

#[derive(Debug, PartialEq, Eq)]
pub struct EntityStore {
    pub id: i32,
    pub name: String,
    pub alias: Option<String>,
    pub branch: Option<String>,
    pub address: Option<String>,
}

#[derive(Debug, PartialEq, Eq)]
pub struct NewEntityStore {
    pub name: String,
    pub alias: Option<String>,
    pub branch: Option<String>,
    pub address: Option<String>,
}

/// Changes to a store row. An absent field is left alone; `Some(None)` clears
/// an optional column.
#[derive(Debug, PartialEq, Eq)]
pub struct UpdateEntityStore {
    pub id: i32,
    pub name: Option<String>,
    pub alias: Option<Option<String>>,
    pub branch: Option<Option<String>>,
    pub address: Option<Option<String>>,
}

#[derive(Debug, PartialEq, Eq)]
pub struct EntityProduct {
    pub id: i32,
    pub name: String,
    pub alias: Option<String>,
    pub brand: Option<String>,
    pub specification_amount: Option<i32>,
    pub specification_unit: Option<String>,
    pub specification_others: Option<String>,
}

#[derive(Debug, PartialEq, Eq)]
pub struct NewEntityProduct {
    pub name: String,
    pub alias: Option<String>,
    pub brand: Option<String>,
    pub specification_amount: Option<i32>,
    pub specification_unit: Option<String>,
    pub specification_others: Option<String>,
}

/// Changes to a product row. An absent field is left alone; `Some(None)`
/// clears an optional column.
#[derive(Debug, PartialEq, Eq)]
pub struct UpdateEntityProduct {
    pub id: i32,
    pub name: Option<String>,
    pub alias: Option<Option<String>>,
    pub brand: Option<Option<String>>,
    pub specification_amount: Option<Option<i32>>,
    pub specification_unit: Option<Option<String>>,
    pub specification_others: Option<Option<String>>,
}

#[derive(Clone, Copy, Debug, PartialEq, Eq)]
pub struct EntityReceipt {
    pub id: i32,
    pub transaction_date: DateTime,
    pub is_inventory_taxed: bool,
    pub currency_id: i32,
    pub store_id: i32,
    pub transaction_id: Option<u128>,
}

#[derive(Clone, Copy, Debug, PartialEq, Eq)]
pub struct NewEntityReceipt {
    pub transaction_date: DateTime,
    pub is_inventory_taxed: bool,
    pub currency_id: i32,
    pub store_id: i32,
    pub transaction_id: Option<u128>,
}

/// Changes to a receipt row; an absent field is left alone.
#[derive(Clone, Copy, Debug, PartialEq, Eq)]
pub struct UpdateEntityReceipt {
    pub id: i32,
    pub transaction_date: Option<DateTime>,
    pub is_inventory_taxed: Option<bool>,
}

#[derive(Debug, PartialEq, Eq)]
pub struct EntityInventory {
    pub id: i32,
    pub price: Decimal,
    pub quantity: i32,
    pub product_id: i32,
    pub receipt_id: i32,
}

#[derive(Debug, PartialEq, Eq)]
pub struct NewEntityInventory {
    pub price: Decimal,
    pub quantity: i32,
    pub product_id: i32,
    pub receipt_id: i32,
}

/// The attributes that make a product what it is, and by which a product
/// that a receipt describes is looked up: its name, its brand and the three
/// parts of its specification. The alias is not among them.
#[derive(Debug, PartialEq, Eq)]
pub struct ProductAttributes {
    pub name: String,
    pub brand: Option<String>,
    pub specification_amount: Option<i32>,
    pub specification_unit: Option<String>,
    pub specification_others: Option<String>,
}

impl Keyed for EntityCurrency {
    open spec fn key(&self) -> i32 {
        self.id
    }

    fn key_of(&self) -> (key: i32) {
        self.id
    }
}

impl Keyed for EntityStore {
    open spec fn key(&self) -> i32 {
        self.id
    }

    fn key_of(&self) -> (key: i32) {
        self.id
    }
}

impl Keyed for EntityProduct {
    open spec fn key(&self) -> i32 {
        self.id
    }

    fn key_of(&self) -> (key: i32) {
        self.id
    }
}

impl Keyed for EntityReceipt {
    open spec fn key(&self) -> i32 {
        self.id
    }

    fn key_of(&self) -> (key: i32) {
        self.id
    }
}

impl Keyed for EntityInventory {
    open spec fn key(&self) -> i32 {
        self.id
    }

    fn key_of(&self) -> (key: i32) {
        self.id
    }
}

impl Clone for EntityCurrency {
    fn clone(&self) -> (copy: Self)
        ensures
            copy == *self,
    {
        Self { id: self.id, name: self.name.clone() }
    }
}

impl Clone for EntityStore {
    fn clone(&self) -> (copy: Self)
        ensures
            copy == *self,
    {
        Self {
            id: self.id,
            name: self.name.clone(),
            alias: clone_text(&self.alias),
            branch: clone_text(&self.branch),
            address: clone_text(&self.address),
        }
    }
}

impl Clone for EntityProduct {
    fn clone(&self) -> (copy: Self)
        ensures
            copy == *self,
    {
        Self {
            id: self.id,
            name: self.name.clone(),
            alias: clone_text(&self.alias),
            brand: clone_text(&self.brand),
            specification_amount: self.specification_amount,
            specification_unit: clone_text(&self.specification_unit),
            specification_others: clone_text(&self.specification_others),
        }
    }
}

impl Clone for EntityInventory {
    fn clone(&self) -> (copy: Self)
        ensures
            copy == *self,
    {
        Self {
            id: self.id,
            price: self.price.clone(),
            quantity: self.quantity,
            product_id: self.product_id,
            receipt_id: self.receipt_id,
        }
    }
}

impl EntityCurrency {
    /// The row carries the name `name`.
    pub open spec fn named(self, name: Seq<char>) -> bool {
        self.name@ == name
    }

    pub fn is_named(&self, name: &String) -> (answer: bool)
        ensures
            answer == self.named(name@),
    {
        self.name == *name
    }
}

impl NewEntityCurrency {
    /// The row that is stored under `id`.
    pub open spec fn row(self, id: i32) -> EntityCurrency {
        EntityCurrency { id, name: self.name }
    }

    pub fn to_row(&self, id: i32) -> (row: EntityCurrency)
        ensures
            row == self.row(id),
    {
        EntityCurrency { id, name: self.name.clone() }
    }
}

impl UpdateEntityCurrency {
    /// `row` after the change.
    pub open spec fn applied(self, row: EntityCurrency) -> EntityCurrency {
        EntityCurrency { id: row.id, name: self.name }
    }

    pub fn apply(&self, row: &EntityCurrency) -> (changed: EntityCurrency)
        ensures
            changed == self.applied(*row),
    {
        EntityCurrency { id: row.id, name: self.name.clone() }
    }
}

impl EntityStore {
    /// The row carries the name `name` and the branch `branch`; no branch
    /// is the branch of a row without one, and of no other.
    pub open spec fn matches(self, name: Seq<char>, branch: Option<Seq<char>>) -> bool {
        self.name@ == name && text_view(self.branch) == branch
    }

    pub fn is_match(&self, name: &String, branch: &Option<String>) -> (answer: bool)
        ensures
            answer == self.matches(name@, text_view(*branch)),
    {
        self.name == *name && crate::text::same_text(&self.branch, branch)
    }
}

impl NewEntityStore {
    /// The row that is stored under `id`.
    pub open spec fn row(self, id: i32) -> EntityStore {
        EntityStore {
            id,
            name: self.name,
            alias: self.alias,
            branch: self.branch,
            address: self.address,
        }
    }

    pub fn to_row(&self, id: i32) -> (row: EntityStore)
        ensures
            row == self.row(id),
    {
        EntityStore {
            id,
            name: self.name.clone(),
            alias: clone_text(&self.alias),
            branch: clone_text(&self.branch),
            address: clone_text(&self.address),
        }
    }
}

/// An optional column after a change: the new value where one is given,
/// else the old one.
pub open spec fn changed_text(old: Option<String>, change: Option<Option<String>>) -> Option<
    String,
> {
    match change {
        Some(value) => value,
        None => old,
    }
}

/// An optional column after a change.
pub fn change_text(old: &Option<String>, change: &Option<Option<String>>) -> (new: Option<String>)
    ensures
        new == changed_text(*old, *change),
{
    match change {
        Some(value) => clone_text(value),
        None => clone_text(old),
    }
}

impl UpdateEntityStore {
    /// No column is changed.
    pub open spec fn is_empty(self) -> bool {
        self.name is None && self.alias is None && self.branch is None && self.address is None
    }

    pub fn has_no_change(&self) -> (answer: bool)
        ensures
            answer == self.is_empty(),
    {
        self.name.is_none() && self.alias.is_none() && self.branch.is_none()
            && self.address.is_none()
    }

    /// `row` after the changes.
    pub open spec fn applied(self, row: EntityStore) -> EntityStore {
        EntityStore {
            id: row.id,
            name: match self.name {
                Some(name) => name,
                None => row.name,
            },
            alias: changed_text(row.alias, self.alias),
            branch: changed_text(row.branch, self.branch),
            address: changed_text(row.address, self.address),
        }
    }

    pub fn apply(&self, row: &EntityStore) -> (changed: EntityStore)
        ensures
            changed == self.applied(*row),
    {
        EntityStore {
            id: row.id,
            name: match &self.name {
                Some(name) => name.clone(),
                None => row.name.clone(),
            },
            alias: change_text(&row.alias, &self.alias),
            branch: change_text(&row.branch, &self.branch),
            address: change_text(&row.address, &self.address),
        }
    }
}

impl Clone for UpdateEntityCurrency {
    fn clone(&self) -> (copy: Self)
        ensures
            copy == *self,
    {
        Self { id: self.id, name: self.name.clone() }
    }
}

impl Clone for UpdateEntityProduct {
    fn clone(&self) -> (copy: Self)
        ensures
            copy == *self,
    {
        Self {
            id: self.id,
            name: clone_text(&self.name),
            alias: clone_text_change(&self.alias),
            brand: clone_text_change(&self.brand),
            specification_amount: self.specification_amount,
            specification_unit: clone_text_change(&self.specification_unit),
            specification_others: clone_text_change(&self.specification_others),
        }
    }
}

impl Clone for UpdateEntityStore {
    fn clone(&self) -> (copy: Self)
        ensures
            copy == *self,
    {
        Self {
            id: self.id,
            name: clone_text(&self.name),
            alias: clone_text_change(&self.alias),
            branch: clone_text_change(&self.branch),
            address: clone_text_change(&self.address),
        }
    }
}

impl ProductAttributes {
    /// `row` carries the name, the brand and the three parts of the
    /// specification; an attribute that is absent is matched by a column
    /// that is empty, and by no other.
    pub open spec fn describes(self, row: EntityProduct) -> bool {
        &&& row.name@ == self.name@
        &&& text_view(row.brand) == text_view(self.brand)
        &&& row.specification_amount == self.specification_amount
        &&& text_view(row.specification_unit) == text_view(self.specification_unit)
        &&& text_view(row.specification_others) == text_view(self.specification_others)
    }

    pub fn is_description_of(&self, row: &EntityProduct) -> (answer: bool)
        ensures
            answer == self.describes(*row),
    {
        if row.name != self.name {
            return false;
        }
        let same_amount = match (self.specification_amount, row.specification_amount) {
            (Some(wanted), Some(found)) => wanted == found,
            (None, None) => true,
            _ => false,
        };
        same_amount && crate::text::same_text(&row.brand, &self.brand) && crate::text::same_text(
            &row.specification_unit,
            &self.specification_unit,
        ) && crate::text::same_text(&row.specification_others, &self.specification_others)
    }
}

impl NewEntityProduct {
    /// The row that is stored under `id`.
    pub open spec fn row(self, id: i32) -> EntityProduct {
        EntityProduct {
            id,
            name: self.name,
            alias: self.alias,
            brand: self.brand,
            specification_amount: self.specification_amount,
            specification_unit: self.specification_unit,
            specification_others: self.specification_others,
        }
    }

    pub fn to_row(&self, id: i32) -> (row: EntityProduct)
        ensures
            row == self.row(id),
    {
        EntityProduct {
            id,
            name: self.name.clone(),
            alias: clone_text(&self.alias),
            brand: clone_text(&self.brand),
            specification_amount: self.specification_amount,
            specification_unit: clone_text(&self.specification_unit),
            specification_others: clone_text(&self.specification_others),
        }
    }
}

impl UpdateEntityProduct {
    /// No column is changed.
    pub open spec fn is_empty(self) -> bool {
        &&& self.name is None
        &&& self.alias is None
        &&& self.brand is None
        &&& self.specification_amount is None
        &&& self.specification_unit is None
        &&& self.specification_others is None
    }

    pub fn has_no_change(&self) -> (answer: bool)
        ensures
            answer == self.is_empty(),
    {
        self.name.is_none() && self.alias.is_none() && self.brand.is_none()
            && self.specification_amount.is_none() && self.specification_unit.is_none()
            && self.specification_others.is_none()
    }

    /// `row` after the changes.
    pub open spec fn applied(self, row: EntityProduct) -> EntityProduct {
        EntityProduct {
            id: row.id,
            name: match self.name {
                Some(name) => name,
                None => row.name,
            },
            alias: changed_text(row.alias, self.alias),
            brand: changed_text(row.brand, self.brand),
            specification_amount: match self.specification_amount {
                Some(amount) => amount,
                None => row.specification_amount,
            },
            specification_unit: changed_text(row.specification_unit, self.specification_unit),
            specification_others: changed_text(
                row.specification_others,
                self.specification_others,
            ),
        }
    }

    pub fn apply(&self, row: &EntityProduct) -> (changed: EntityProduct)
        ensures
            changed == self.applied(*row),
    {
        EntityProduct {
            id: row.id,
            name: match &self.name {
                Some(name) => name.clone(),
                None => row.name.clone(),
            },
            alias: change_text(&row.alias, &self.alias),
            brand: change_text(&row.brand, &self.brand),
            specification_amount: match self.specification_amount {
                Some(amount) => amount,
                None => row.specification_amount,
            },
            specification_unit: change_text(&row.specification_unit, &self.specification_unit),
            specification_others: change_text(
                &row.specification_others,
                &self.specification_others,
            ),
        }
    }
}

impl NewEntityReceipt {
    /// The row that is stored under `id`.
    pub open spec fn row(self, id: i32) -> EntityReceipt {
        EntityReceipt {
            id,
            transaction_date: self.transaction_date,
            is_inventory_taxed: self.is_inventory_taxed,
            currency_id: self.currency_id,
            store_id: self.store_id,
            transaction_id: self.transaction_id,
        }
    }

    pub fn to_row(&self, id: i32) -> (row: EntityReceipt)
        ensures
            row == self.row(id),
    {
        EntityReceipt {
            id,
            transaction_date: self.transaction_date,
            is_inventory_taxed: self.is_inventory_taxed,
            currency_id: self.currency_id,
            store_id: self.store_id,
            transaction_id: self.transaction_id,
        }
    }
}

impl UpdateEntityReceipt {
    /// `row` after the changes.
    pub open spec fn applied(self, row: EntityReceipt) -> EntityReceipt {
        EntityReceipt {
            transaction_date: match self.transaction_date {
                Some(date) => date,
                None => row.transaction_date,
            },
            is_inventory_taxed: match self.is_inventory_taxed {
                Some(taxed) => taxed,
                None => row.is_inventory_taxed,
            },
            ..row
        }
    }

    pub fn apply(&self, row: &EntityReceipt) -> (changed: EntityReceipt)
        ensures
            changed == self.applied(*row),
    {
        EntityReceipt {
            id: row.id,
            transaction_date: match self.transaction_date {
                Some(date) => date,
                None => row.transaction_date,
            },
            is_inventory_taxed: match self.is_inventory_taxed {
                Some(taxed) => taxed,
                None => row.is_inventory_taxed,
            },
            currency_id: row.currency_id,
            store_id: row.store_id,
            transaction_id: row.transaction_id,
        }
    }
}

impl NewEntityInventory {
    /// The row that is stored under `id`.
    pub open spec fn row(self, id: i32) -> EntityInventory {
        EntityInventory {
            id,
            price: self.price,
            quantity: self.quantity,
            product_id: self.product_id,
            receipt_id: self.receipt_id,
        }
    }

    pub fn to_row(&self, id: i32) -> (row: EntityInventory)
        ensures
            row == self.row(id),
    {
        EntityInventory {
            id,
            price: self.price.clone(),
            quantity: self.quantity,
            product_id: self.product_id,
            receipt_id: self.receipt_id,
        }
    }
}

} // verus!
