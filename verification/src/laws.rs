//! Laws of the receipt workflows, stated over the contents of the store.
//!
//! [`crate::create_receipt::created`] and [`crate::delete_receipt::deleted`]
//! are what the services leave in a store that serves every request
//! honestly; the laws say what that means for the rows.

use crate::commands::{runs, CommandOutcome, WriterCommand};
use crate::create_receipt::{
    add_line, add_lines, create_outcome, create_verdict, created, currency_verdict,
    describes_product, lemma_add_lines_frame, lemma_write_lines_failure,
    lemma_write_lines_had_room, lemma_write_lines_with_room, lines_verdict, new_products,
    product_verdict, resolve_currency, resolve_product, resolve_store, room_to_create,
    store_verdict, try_currency, try_store, with_receipt, write_lines, written,
};
use crate::database::{currency_change, has_key, row_with_key, Database};
use crate::delete_receipt::{
    currency_outlives, deleted, line_of_other_receipt, lines_mention, other_lines_mention,
    other_receipts_use_currency, other_receipts_use_store, product_outlives, store_outlives,
};
use crate::entities::{EntityCurrency, Keyed};
use crate::errors::ApiError;
use crate::memory_store::lemma_change_keeps_table;
use crate::patch::{patch_outcome, PatchWorkflow};
use crate::payloads::{CreateInventoryInReceiptPayload, CreateReceiptPayload, PatchCurrencyPayload};
use crate::responses::ResponseCreateReceipt;
use crate::tables::{lemma_filter_all, lemma_filter_keys};
use vstd::prelude::*;

verus! {

/// A receipt that names its currency by identifier inserts no currency,
/// and neither does a second one after it: the table of currencies is the
/// same after both.
pub proof fn law_named_currency_is_reused(
    db: Database,
    first: CreateReceiptPayload,
    second: CreateReceiptPayload,
)
    requires
        first.currency.id is Some,
        second.currency.id is Some,
    ensures
        created(db, first).currencies == db.currencies,
        created(created(db, first), second).currencies == db.currencies,
{
    lemma_add_lines_frame(with_receipt(db, first), first.inventories@, db.next_receipt_id);
    let mid = created(db, first);
    lemma_add_lines_frame(with_receipt(mid, second), second.inventories@, mid.next_receipt_id);
}

/// A receipt that describes a currency which the store does not know
/// inserts exactly one row for it; a second receipt that names that row by
/// its identifier is accepted as far as its currency goes, inserts none, and
/// both receipts refer to the one row.
pub proof fn law_described_currency_is_inserted_once(
    db: Database,
    first: CreateReceiptPayload,
    second: CreateReceiptPayload,
)
    requires
        db.wf(),
        first.currency.id is None,
        first.currency.name is Some,
        second.currency.id == Some(db.next_currency_id),
    ensures
        ({
            let mid = created(db, first);
            let end = created(mid, second);
            let row = EntityCurrency { id: db.next_currency_id, name: first.currency.name->0 };
            &&& mid.currencies == db.currencies.push(row)
            &&& currency_verdict(mid, second.currency) is None
            &&& end.currencies == mid.currencies
            &&& mid.receipts == db.receipts.push(mid.receipts.last())
            &&& mid.receipts.last().currency_id == row.id
            &&& end.receipts == mid.receipts.push(end.receipts.last())
            &&& end.receipts.last().currency_id == row.id
        }),
{
    lemma_add_lines_frame(with_receipt(db, first), first.inventories@, db.next_receipt_id);
    let mid = created(db, first);
    lemma_add_lines_frame(with_receipt(mid, second), second.inventories@, mid.next_receipt_id);
    let row = EntityCurrency { id: db.next_currency_id, name: first.currency.name->0 };
    assert(mid.currencies == db.currencies.push(row));
    assert(mid.currencies[db.currencies.len() as int].key() == db.next_currency_id);
    assert(has_key(mid.currencies, db.next_currency_id));
    let end = created(mid, second);
    assert(mid.receipts =~= db.receipts.push(mid.receipts.last()));
    assert(end.receipts =~= mid.receipts.push(end.receipts.last()));
}

/// A receipt that describes a currency under a name that the store already
/// has is rejected as a duplicate, and nothing is written.
pub proof fn law_duplicate_currency_is_rejected(
    before: Database,
    form: CreateReceiptPayload,
    result: Result<ResponseCreateReceipt, ApiError>,
    after: Database,
)
    requires
        form.currency.id is None,
        form.currency.name is Some,
        before.currency_named(form.currency.name->0@),
        create_outcome(before, form, result, after),
    ensures
        result == Err::<ResponseCreateReceipt, ApiError>(ApiError::CurrencyNameDuplicated),
        after == before,
{
}

/// An accepted payload is created whole, and the new receipt's identifier
/// is returned, exactly if every table has identifiers left for the rows
/// that the creation inserts. Otherwise the creation ends with a failed
/// insert.
pub proof fn law_accepted_payload_is_created(
    before: Database,
    form: CreateReceiptPayload,
    result: Result<ResponseCreateReceipt, ApiError>,
    after: Database,
)
    requires
        create_verdict(before, form) is None,
        create_outcome(before, form, result, after),
    ensures
        result is Ok <==> room_to_create(before, form),
        result is Ok ==> after == created(before, form) && result->Ok_0.id
            == before.next_receipt_id,
        result matches Err(error) ==> error.is_insert_failure(),
{
    let base = with_receipt(before, form);
    let lines = form.inventories@;
    let receipt = before.next_receipt_id;
    lemma_write_lines_failure(base, lines, receipt);
    if room_to_create(before, form) {
        lemma_write_lines_with_room(base, lines, receipt);
    }
    if result is Ok {
        assert(written(before, form).1 is Ok);
        assert(write_lines(base, lines, receipt).1 is None);
        lemma_write_lines_had_room(base, lines, receipt);
    }
}

/// A payload that is rejected for any reason leaves the store as it was.
pub proof fn law_rejected_payload_writes_nothing(
    before: Database,
    form: CreateReceiptPayload,
    result: Result<ResponseCreateReceipt, ApiError>,
    after: Database,
)
    requires
        create_verdict(before, form) is Some,
        create_outcome(before, form, result, after),
    ensures
        result == Err::<ResponseCreateReceipt, ApiError>(create_verdict(before, form)->0),
        after == before,
{
}

/// After a receipt is deleted, the receipt is gone and no inventory line
/// belongs to it; a product that only its lines referred to is gone; a
/// product that a line of another receipt refers to, or that none of its
/// lines referred to, is still there.
pub proof fn law_delete_removes_orphans_only(db: Database, receipt: i32)
    requires
        db.wf(),
    ensures
        ({
            let after = deleted(db, receipt);
            &&& !has_key(after.receipts, receipt)
            &&& forall|i: int|
                0 <= i < after.inventories.len() ==> (#[trigger] after.inventories[i]).receipt_id
                    != receipt
            &&& forall|i: int|
                0 <= i < db.inventories.len() && (#[trigger] db.inventories[i]).receipt_id
                    != receipt ==> after.inventories.contains(db.inventories[i])
            &&& forall|product: i32|
                lines_mention(db, receipt, product) && !other_lines_mention(db, receipt, product)
                    ==> !has_key(after.products, product)
            &&& forall|product: i32|
                has_key(db.products, product) && (other_lines_mention(db, receipt, product)
                    || !lines_mention(db, receipt, product)) ==> has_key(after.products, product)
            &&& forall|product: i32| after.product_in_use(product) ==> other_lines_mention(db, receipt, product)
        }),
{
    broadcast use {Seq::lemma_filter_pred, Seq::lemma_filter_contains};

    let after = deleted(db, receipt);
    lemma_filter_keys(db.receipts, crate::database::without_key_keep(receipt), receipt);
    assert forall|i: int| 0 <= i < after.inventories.len() implies (
    #[trigger] after.inventories[i]).receipt_id != receipt by {
        assert(line_of_other_receipt(receipt)(after.inventories[i]));
    }
    assert forall|i: int|
        0 <= i < db.inventories.len() && (#[trigger] db.inventories[i]).receipt_id
            != receipt implies after.inventories.contains(db.inventories[i]) by {
        assert(line_of_other_receipt(receipt)(db.inventories[i]));
    }
    assert forall|product: i32|
        lines_mention(db, receipt, product) && !other_lines_mention(
            db,
            receipt,
            product,
        ) implies !has_key(after.products, product) by {
        lemma_filter_keys(db.products, product_outlives(db, receipt), product);
    }
    assert forall|product: i32|
        has_key(db.products, product) && (other_lines_mention(db, receipt, product)
            || !lines_mention(db, receipt, product)) implies has_key(after.products, product) by {
        lemma_filter_keys(db.products, product_outlives(db, receipt), product);
        let i = choose|i: int| 0 <= i < db.products.len() && (#[trigger] db.products[i]).key() == product;
        assert(product_outlives(db, receipt)(db.products[i]));
    }
    assert forall|product: i32| after.product_in_use(product) implies other_lines_mention(
        db,
        receipt,
        product,
    ) by {
        crate::delete_receipt::lemma_use_after_lines(db, receipt, product);
    }
}

/// Deleting a receipt whose store another receipt refers to leaves every
/// store in its place, and so for its currency: a row that is shared is
/// never deleted.
pub proof fn law_shared_store_and_currency_are_kept(db: Database, receipt: i32)
    requires
        db.wf(),
        has_key(db.receipts, receipt),
    ensures
        other_receipts_use_store(db, receipt, row_with_key(db.receipts, receipt).store_id) ==> deleted(
            db,
            receipt,
        ).stores == db.stores,
        other_receipts_use_currency(db, receipt, row_with_key(db.receipts, receipt).currency_id)
            ==> deleted(db, receipt).currencies == db.currencies,
{
    let doomed = row_with_key(db.receipts, receipt);
    if other_receipts_use_store(db, receipt, doomed.store_id) {
        assert forall|i: int| 0 <= i < db.stores.len() implies store_outlives(db, receipt)(
            #[trigger] db.stores[i],
        ) by {}
        lemma_filter_all(db.stores, store_outlives(db, receipt));
    }
    if other_receipts_use_currency(db, receipt, doomed.currency_id) {
        assert forall|i: int| 0 <= i < db.currencies.len() implies currency_outlives(
            db,
            receipt,
        )(#[trigger] db.currencies[i]) by {}
        lemma_filter_all(db.currencies, currency_outlives(db, receipt));
    }
}

/// Deleting a receipt deletes its store and its currency where no other
/// receipt refers to them, and no other store or currency.
pub proof fn law_orphaned_store_and_currency_are_deleted(db: Database, receipt: i32)
    requires
        db.wf(),
        has_key(db.receipts, receipt),
    ensures
        ({
            let doomed = row_with_key(db.receipts, receipt);
            let after = deleted(db, receipt);
            &&& forall|store: i32|
                has_key(after.stores, store) == (has_key(db.stores, store) && (store
                    != doomed.store_id || other_receipts_use_store(db, receipt, store)))
            &&& forall|currency: i32|
                has_key(after.currencies, currency) == (has_key(db.currencies, currency) && (
                currency != doomed.currency_id || other_receipts_use_currency(
                    db,
                    receipt,
                    currency,
                )))
        }),
{
    let doomed = row_with_key(db.receipts, receipt);
    let after = deleted(db, receipt);
    assert forall|store: i32|
        has_key(after.stores, store) == (has_key(db.stores, store) && (store != doomed.store_id
            || other_receipts_use_store(db, receipt, store))) by {
        lemma_filter_keys(db.stores, store_outlives(db, receipt), store);
        if has_key(db.stores, store) && (store != doomed.store_id || other_receipts_use_store(
            db,
            receipt,
            store,
        )) {
            let i = choose|i: int| 0 <= i < db.stores.len() && (#[trigger] db.stores[i]).key() == store;
            assert(store_outlives(db, receipt)(db.stores[i]));
        }
    }
    assert forall|currency: i32|
        has_key(after.currencies, currency) == (has_key(db.currencies, currency) && (currency
            != doomed.currency_id || other_receipts_use_currency(db, receipt, currency))) by {
        lemma_filter_keys(db.currencies, currency_outlives(db, receipt), currency);
        if has_key(db.currencies, currency) && (currency != doomed.currency_id
            || other_receipts_use_currency(db, receipt, currency)) {
            let i = choose|i: int|
                0 <= i < db.currencies.len() && (#[trigger] db.currencies[i]).key() == currency;
            assert(currency_outlives(db, receipt)(db.currencies[i]));
        }
    }
}

/// Commands take effect in the order of their submission: of two changes
/// to the name of one currency, the later one stands. Both succeed, and the
/// currency carries the second name afterwards, never the first.
pub proof fn law_later_patch_wins(
    before: Database,
    id: i32,
    first: PatchCurrencyPayload,
    second: PatchCurrencyPayload,
    outcomes: Seq<CommandOutcome>,
    after: Database,
)
    requires
        before.wf(),
        has_key(before.currencies, id),
        runs(
            before,
            seq![WriterCommand::PatchCurrency(id, first), WriterCommand::PatchCurrency(id, second)],
            outcomes,
            after,
        ),
    ensures
        outcomes == seq![CommandOutcome::Patched(Ok(())), CommandOutcome::Patched(Ok(()))],
        after == before.update_currency(first.changes(id)).update_currency(second.changes(id)),
        has_key(after.currencies, id),
        row_with_key(after.currencies, id).name == second.name,
        forall|i: int|
            0 <= i < after.currencies.len() && (#[trigger] after.currencies[i]).id == id
                ==> after.currencies[i].name == second.name,
{
    let one = WriterCommand::PatchCurrency(id, first);
    let two = WriterCommand::PatchCurrency(id, second);
    let commands = seq![one, two];
    assert(commands.len() == 2);
    assert(commands.last() == two);
    assert(commands.drop_last() =~= seq![one]);
    let between = choose|between: Database|
        runs(before, commands.drop_last(), outcomes.drop_last(), between) && #[trigger] commands.last().comes_to(
            between,
            outcomes.last(),
            after,
        );
    let head = seq![one];
    assert(head.len() == 1);
    assert(head.last() == one);
    assert(head.drop_last() =~= Seq::<WriterCommand>::empty());
    let start = choose|start: Database|
        runs(before, head.drop_last(), outcomes.drop_last().drop_last(), start) && #[trigger] head.last().comes_to(
            start,
            outcomes.drop_last().last(),
            between,
        );
    assert(start == before);
    lemma_change_keeps_table(
        before.currencies,
        currency_change(first.changes(id)),
        before.next_currency_id,
    );
    assert(between == before.update_currency(first.changes(id)));
    assert(has_key(between.currencies, id));
    lemma_change_keeps_table(
        between.currencies,
        currency_change(second.changes(id)),
        between.next_currency_id,
    );
    assert(after == between.update_currency(second.changes(id)));
    assert(outcomes =~= seq![CommandOutcome::Patched(Ok(())), CommandOutcome::Patched(Ok(()))]) by {
        assert(outcomes.len() == 2);
        assert(outcomes[1] == outcomes.last());
        assert(outcomes[0] == outcomes.drop_last().last());
    }
    assert forall|i: int|
        0 <= i < after.currencies.len() && (#[trigger] after.currencies[i]).id
            == id implies after.currencies[i].name == second.name by {
        assert(after.currencies[i] == currency_change(second.changes(id))(between.currencies[i]));
        assert(between.currencies[i] == currency_change(first.changes(id))(before.currencies[i]));
    }
    let k = choose|k: int|
        0 <= k < after.currencies.len() && (#[trigger] after.currencies[k]).key() == id;
    assert(after.currencies[k].id == id);
}

/// A row that is in a table is still there when a row is added.
proof fn lemma_push_keeps_keys<T: Keyed>(rows: Seq<T>, row: T, id: i32)
    ensures
        has_key(rows, id) ==> has_key(rows.push(row), id),
        has_key(rows.push(row), row.key()),
{
    if has_key(rows, id) {
        let k = choose|k: int| 0 <= k < rows.len() && (#[trigger] rows[k]).key() == id;
        assert(rows.push(row)[k].key() == id);
    }
    assert(rows.push(row)[rows.len() as int].key() == row.key());
}

/// Whether the store `out` is the store `base` with more products and
/// inventory lines, all of whose references resolve.
spec fn grown_from(base: Database, out: Database) -> bool {
    &&& out.references_resolve()
    &&& out.receipts == base.receipts
    &&& out.currencies == base.currencies
    &&& out.stores == base.stores
    &&& forall|product: i32| has_key(base.products, product) ==> has_key(out.products, product)
}

/// What holds of the lines that are added holds of the lines that are
/// written up to a failed insert.
proof fn lemma_write_lines_keeps_references(
    before: Database,
    base: Database,
    lines: Seq<CreateInventoryInReceiptPayload>,
    receipt: i32,
)
    requires
        base.references_resolve(),
        has_key(base.receipts, receipt),
        lines_verdict(before, lines) is None,
        forall|product: i32| has_key(before.products, product) ==> has_key(base.products, product),
    ensures
        grown_from(base, write_lines(base, lines, receipt).0),
    decreases lines.len(),
{
    if lines.len() > 0 {
        let front = lines.drop_last();
        let line = lines.last();
        lemma_write_lines_keeps_references(before, base, front, receipt);
        let (mid, failure) = write_lines(base, front, receipt);
        let out = write_lines(base, lines, receipt).0;
        if failure is None && out != mid {
            let (with_product, product) = resolve_product(mid, line.product);
            assert(product_verdict(before, line.product) is None);
            assert forall|id: i32| has_key(mid.products, id) implies has_key(
                with_product.products,
                id,
            ) by {
                if line.product.id is None {
                    lemma_push_keeps_keys(
                        mid.products,
                        line.product.described().unwrap().row(mid.next_product_id),
                        id,
                    );
                }
            }
            assert(has_key(with_product.products, product)) by {
                if line.product.id is None {
                    lemma_push_keeps_keys(
                        mid.products,
                        line.product.described().unwrap().row(mid.next_product_id),
                        product,
                    );
                }
            }
            assert(out == with_product || out == add_line(mid, line, receipt));
            assert forall|i: int| 0 <= i < out.inventories.len() implies has_key(
                out.receipts,
                (#[trigger] out.inventories[i]).receipt_id,
            ) && has_key(out.products, out.inventories[i].product_id) by {
                if i < mid.inventories.len() {
                    assert(out.inventories[i] == mid.inventories[i]);
                }
            }
            assert forall|i: int| 0 <= i < out.receipts.len() implies has_key(
                out.currencies,
                (#[trigger] out.receipts[i]).currency_id,
            ) && has_key(out.stores, out.receipts[i].store_id) by {
                assert(out.receipts[i] == mid.receipts[i]);
            }
        }
    }
}

/// A store into which a currency or a store row is inserted without a
/// receipt that refers to it keeps its references whole.
proof fn lemma_reference_rows_keep_references(db: Database, form: CreateReceiptPayload)
    requires
        db.references_resolve(),
    ensures
        resolve_currency(db, form.currency).0.references_resolve(),
        resolve_store(resolve_currency(db, form.currency).0, form.store).0.references_resolve(),
{
    let one = resolve_currency(db, form.currency).0;
    let two = resolve_store(one, form.store).0;
    assert forall|i: int| 0 <= i < one.receipts.len() implies has_key(
        one.currencies,
        (#[trigger] one.receipts[i]).currency_id,
    ) && has_key(one.stores, one.receipts[i].store_id) by {
        assert(one.receipts[i] == db.receipts[i]);
        if form.currency.id is None {
            lemma_push_keeps_keys(
                db.currencies,
                form.currency.described().unwrap().row(db.next_currency_id),
                db.receipts[i].currency_id,
            );
        }
    }
    assert forall|i: int| 0 <= i < one.inventories.len() implies has_key(
        one.receipts,
        (#[trigger] one.inventories[i]).receipt_id,
    ) && has_key(one.products, one.inventories[i].product_id) by {
        assert(one.inventories[i] == db.inventories[i]);
    }
    assert forall|i: int| 0 <= i < two.receipts.len() implies has_key(
        two.currencies,
        (#[trigger] two.receipts[i]).currency_id,
    ) && has_key(two.stores, two.receipts[i].store_id) by {
        assert(two.receipts[i] == one.receipts[i]);
        if form.store.id is None {
            lemma_push_keeps_keys(
                one.stores,
                form.store.described().unwrap().row(one.next_store_id),
                one.receipts[i].store_id,
            );
        }
    }
    assert forall|i: int| 0 <= i < two.inventories.len() implies has_key(
        two.receipts,
        (#[trigger] two.inventories[i]).receipt_id,
    ) && has_key(two.products, two.inventories[i].product_id) by {
        assert(two.inventories[i] == one.inventories[i]);
    }
}

/// Creation keeps the references of the store whole: if every inventory
/// line had its receipt and its product and every receipt its currency and
/// its store, the same holds after a creation, whether the payload was
/// rejected, written whole, or written up to a failed insert.
pub proof fn law_creation_keeps_references(
    before: Database,
    form: CreateReceiptPayload,
    result: Result<ResponseCreateReceipt, ApiError>,
    after: Database,
)
    requires
        before.references_resolve(),
        create_outcome(before, form, result, after),
    ensures
        after.references_resolve(),
{
    if create_verdict(before, form) is None {
        lemma_reference_rows_keep_references(before, form);
        let (with_currency, currency) = resolve_currency(before, form.currency);
        let (with_store, store) = resolve_store(with_currency, form.store);
        if try_currency(before, form.currency).1 is Ok && try_store(with_currency, form.store).1
            is Ok && with_store.next_receipt_id < i32::MAX {
            let base = with_receipt(before, form);
            lemma_base_keeps_references(before, form);
            lemma_write_lines_keeps_references(
                before,
                base,
                form.inventories@,
                before.next_receipt_id,
            );
        }
    }
}

/// The store with the receipt row of an accepted payload keeps its
/// references whole, has the new receipt, and has every product that was
/// there.
proof fn lemma_base_keeps_references(db: Database, form: CreateReceiptPayload)
    requires
        db.references_resolve(),
        create_verdict(db, form) is None,
    ensures
        with_receipt(db, form).references_resolve(),
        has_key(with_receipt(db, form).receipts, db.next_receipt_id),
        forall|product: i32|
            has_key(db.products, product) ==> has_key(with_receipt(db, form).products, product),
{
    let (with_currency, currency) = resolve_currency(db, form.currency);
    let (with_store, store) = resolve_store(with_currency, form.store);
    let base = with_receipt(db, form);
    assert(currency_verdict(db, form.currency) is None);
    assert(store_verdict(db, form.store) is None);
    assert forall|id: i32| has_key(db.currencies, id) implies has_key(base.currencies, id) by {
        if form.currency.id is None {
            lemma_push_keeps_keys(
                db.currencies,
                form.currency.described().unwrap().row(db.next_currency_id),
                id,
            );
        }
    }
    assert forall|id: i32| has_key(db.stores, id) implies has_key(base.stores, id) by {
        if form.store.id is None {
            lemma_push_keeps_keys(
                db.stores,
                form.store.described().unwrap().row(db.next_store_id),
                id,
            );
        }
    }
    assert(has_key(base.currencies, currency)) by {
        if form.currency.id is None {
            lemma_push_keeps_keys(
                db.currencies,
                form.currency.described().unwrap().row(db.next_currency_id),
                currency,
            );
        }
    }
    assert(has_key(base.stores, store)) by {
        if form.store.id is None {
            lemma_push_keeps_keys(
                db.stores,
                form.store.described().unwrap().row(db.next_store_id),
                store,
            );
        }
    }
    let row = base.receipts[db.receipts.len() as int];
    assert(row.key() == db.next_receipt_id);
    assert(has_key(base.receipts, db.next_receipt_id));
    assert forall|i: int| 0 <= i < base.receipts.len() implies has_key(
        base.currencies,
        (#[trigger] base.receipts[i]).currency_id,
    ) && has_key(base.stores, base.receipts[i].store_id) by {
        if i < db.receipts.len() {
            assert(base.receipts[i] == db.receipts[i]);
        }
    }
    assert forall|i: int| 0 <= i < base.inventories.len() implies has_key(
        base.receipts,
        (#[trigger] base.inventories[i]).receipt_id,
    ) && has_key(base.products, base.inventories[i].product_id) by {
        assert(base.inventories[i] == db.inventories[i]);
        lemma_push_keeps_keys(db.receipts, row, db.inventories[i].receipt_id);
    }
}

/// Deletion keeps the references of the store whole: no inventory line is
/// left without its receipt or its product, and no receipt without its
/// currency or its store.
pub proof fn law_deletion_keeps_references(db: Database, receipt: i32)
    requires
        db.references_resolve(),
    ensures
        deleted(db, receipt).references_resolve(),
{
    broadcast use {Seq::lemma_filter_pred, Seq::lemma_filter_contains};

    let after = deleted(db, receipt);
    assert forall|i: int| 0 <= i < after.inventories.len() implies has_key(
        after.receipts,
        (#[trigger] after.inventories[i]).receipt_id,
    ) && has_key(after.products, after.inventories[i].product_id) by {
        let line = after.inventories[i];
        assert(line_of_other_receipt(receipt)(line));
        assert(after.inventories.contains(line));
        db.inventories.lemma_filter_contains_rev(line_of_other_receipt(receipt), line);
        let m = choose|m: int| 0 <= m < db.inventories.len() && db.inventories[m] == line;
        assert(has_key(db.receipts, db.inventories[m].receipt_id));
        assert(has_key(db.products, db.inventories[m].product_id));
        let r = choose|r: int|
            0 <= r < db.receipts.len() && (#[trigger] db.receipts[r]).key() == line.receipt_id;
        lemma_filter_keys(db.receipts, crate::database::without_key_keep(receipt), line.receipt_id);
        assert(crate::database::without_key_keep::<crate::entities::EntityReceipt>(receipt)(
            db.receipts[r],
        ));
        let p = choose|p: int|
            0 <= p < db.products.len() && (#[trigger] db.products[p]).key() == line.product_id;
        assert(other_lines_mention(db, receipt, line.product_id));
        assert(product_outlives(db, receipt)(db.products[p]));
        lemma_filter_keys(db.products, product_outlives(db, receipt), line.product_id);
    }
    assert forall|i: int| 0 <= i < after.receipts.len() implies has_key(
        after.currencies,
        (#[trigger] after.receipts[i]).currency_id,
    ) && has_key(after.stores, after.receipts[i].store_id) by {
        let row = after.receipts[i];
        assert(crate::database::without_key_keep::<crate::entities::EntityReceipt>(receipt)(row));
        assert(after.receipts.contains(row));
        db.receipts.lemma_filter_contains_rev(
            crate::database::without_key_keep::<crate::entities::EntityReceipt>(receipt),
            row,
        );
        let m = choose|m: int| 0 <= m < db.receipts.len() && db.receipts[m] == row;
        assert(has_key(db.currencies, db.receipts[m].currency_id));
        assert(has_key(db.stores, db.receipts[m].store_id));
        assert(other_receipts_use_currency(db, receipt, row.currency_id));
        assert(other_receipts_use_store(db, receipt, row.store_id));
        let c = choose|c: int|
            0 <= c < db.currencies.len() && (#[trigger] db.currencies[c]).key() == row.currency_id;
        assert(currency_outlives(db, receipt)(db.currencies[c]));
        lemma_filter_keys(db.currencies, currency_outlives(db, receipt), row.currency_id);
        let t = choose|t: int| 0 <= t < db.stores.len() && (#[trigger] db.stores[t]).key() == row.store_id;
        assert(store_outlives(db, receipt)(db.stores[t]));
        lemma_filter_keys(db.stores, store_outlives(db, receipt), row.store_id);
    }
}

/// Writing lines appends: the products and the inventory lines that were
/// there stay in their places, one inventory line is added for each line of
/// the payload, in order, and one product for each line that describes one.
proof fn lemma_add_lines_appends(
    base: Database,
    lines: Seq<CreateInventoryInReceiptPayload>,
    receipt: i32,
)
    ensures
        ({
            let out = add_lines(base, lines, receipt);
            &&& out.products.len() == base.products.len() + new_products(lines)
            &&& out.inventories.len() == base.inventories.len() + lines.len()
            &&& out.products.take(base.products.len() as int) == base.products
            &&& out.inventories.take(base.inventories.len() as int) == base.inventories
            &&& forall|i: int|
                0 <= i < lines.len() ==> {
                    let row = #[trigger] out.inventories[base.inventories.len() + i];
                    &&& row.price == lines[i].price
                    &&& row.quantity == lines[i].quantity
                    &&& row.receipt_id == receipt
                    &&& lines[i].product.id is Some ==> row.product_id == lines[i].product.id->0
                }
        }),
    decreases lines.len(),
{
    broadcast use Seq::lemma_filter_len_push;

    let out = add_lines(base, lines, receipt);
    if lines.len() == 0 {
        crate::tables::lemma_filter_of_nothing::<CreateInventoryInReceiptPayload>(
            describes_product(),
        );
        assert(lines =~= Seq::<CreateInventoryInReceiptPayload>::empty());
        assert(out.products.take(base.products.len() as int) =~= base.products);
        assert(out.inventories.take(base.inventories.len() as int) =~= base.inventories);
    } else {
        let front = lines.drop_last();
        lemma_add_lines_appends(base, front, receipt);
        let mid = add_lines(base, front, receipt);
        assert(lines =~= front.push(lines.last()));
        assert(out.products.take(base.products.len() as int) =~= mid.products.take(
            base.products.len() as int,
        ));
        assert(out.inventories.take(base.inventories.len() as int) =~= mid.inventories.take(
            base.inventories.len() as int,
        ));
        assert forall|i: int| 0 <= i < lines.len() implies {
            let row = #[trigger] out.inventories[base.inventories.len() + i];
            &&& row.price == lines[i].price
            &&& row.quantity == lines[i].quantity
            &&& row.receipt_id == receipt
            &&& lines[i].product.id is Some ==> row.product_id == lines[i].product.id->0
        } by {
            if i < front.len() {
                assert(out.inventories[base.inventories.len() + i] == mid.inventories[
                    base.inventories.len() + i
                ]);
                assert(front[i] == lines[i]);
            }
        }
    }
}

/// Creation only appends. Every row that was in the store stays in its
/// place, unchanged. The creation adds exactly one receipt, one inventory
/// line for each line of the payload, in order and with the line's price
/// and quantity, one product for each line that describes its product, and
/// a currency and a store only where the payload describes them.
pub proof fn law_creation_appends_rows(db: Database, form: CreateReceiptPayload)
    ensures
        ({
            let out = created(db, form);
            let lines = form.inventories@;
            &&& out.currencies.len() == db.currencies.len() + (if form.currency.id is None {
                1int
            } else {
                0int
            })
            &&& out.stores.len() == db.stores.len() + (if form.store.id is None {
                1int
            } else {
                0int
            })
            &&& out.receipts.len() == db.receipts.len() + 1
            &&& out.products.len() == db.products.len() + new_products(lines)
            &&& out.inventories.len() == db.inventories.len() + lines.len()
            &&& out.currencies.take(db.currencies.len() as int) == db.currencies
            &&& out.stores.take(db.stores.len() as int) == db.stores
            &&& out.receipts.take(db.receipts.len() as int) == db.receipts
            &&& out.products.take(db.products.len() as int) == db.products
            &&& out.inventories.take(db.inventories.len() as int) == db.inventories
            &&& out.receipts.last().id == db.next_receipt_id
            &&& out.receipts.last().transaction_date == form.transaction_date
            &&& out.receipts.last().is_inventory_taxed == form.is_inventory_taxed
            &&& out.receipts.last().transaction_id == form.transaction_id
            &&& forall|i: int|
                0 <= i < lines.len() ==> {
                    let row = #[trigger] out.inventories[db.inventories.len() + i];
                    &&& row.price == lines[i].price
                    &&& row.quantity == lines[i].quantity
                    &&& row.receipt_id == db.next_receipt_id
                    &&& lines[i].product.id is Some ==> row.product_id == lines[i].product.id->0
                }
        }),
{
    let base = with_receipt(db, form);
    let out = created(db, form);
    lemma_add_lines_frame(base, form.inventories@, db.next_receipt_id);
    lemma_add_lines_appends(base, form.inventories@, db.next_receipt_id);
    assert(out.currencies.take(db.currencies.len() as int) =~= db.currencies);
    assert(out.stores.take(db.stores.len() as int) =~= db.stores);
    assert(out.receipts.take(db.receipts.len() as int) =~= db.receipts);
}

/// A change to a single row keeps the references of the store whole: it
/// neither removes a row nor changes an identifier or a reference.
pub proof fn law_patch_keeps_references(
    before: Database,
    workflow: PatchWorkflow,
    result: Result<(), ApiError>,
    after: Database,
)
    requires
        before.references_resolve(),
        !(workflow is Inventory),
        patch_outcome(before, workflow, result, after),
    ensures
        after.references_resolve(),
        after.receipts.len() == before.receipts.len(),
        forall|i: int|
            0 <= i < after.receipts.len() ==> {
                &&& (#[trigger] after.receipts[i]).id == before.receipts[i].id
                &&& after.receipts[i].transaction_id == before.receipts[i].transaction_id
                &&& after.receipts[i].currency_id == before.receipts[i].currency_id
                &&& after.receipts[i].store_id == before.receipts[i].store_id
            },
{
    if after != before {
        assert forall|id: i32|
            (has_key(before.currencies, id) ==> has_key(after.currencies, id)) && (has_key(
                before.stores,
                id,
            ) ==> has_key(after.stores, id)) && (has_key(before.products, id) ==> has_key(
                after.products,
                id,
            )) && (has_key(before.receipts, id) ==> has_key(after.receipts, id)) by {
            if has_key(before.currencies, id) {
                let k = choose|k: int|
                    0 <= k < before.currencies.len() && (#[trigger] before.currencies[k]).key()
                        == id;
                assert(after.currencies[k].key() == id);
            }
            if has_key(before.stores, id) {
                let k = choose|k: int|
                    0 <= k < before.stores.len() && (#[trigger] before.stores[k]).key() == id;
                assert(after.stores[k].key() == id);
            }
            if has_key(before.products, id) {
                let k = choose|k: int|
                    0 <= k < before.products.len() && (#[trigger] before.products[k]).key() == id;
                assert(after.products[k].key() == id);
            }
            if has_key(before.receipts, id) {
                let k = choose|k: int|
                    0 <= k < before.receipts.len() && (#[trigger] before.receipts[k]).key() == id;
                assert(after.receipts[k].key() == id);
            }
        }
        assert forall|i: int| 0 <= i < after.receipts.len() implies has_key(
            after.currencies,
            (#[trigger] after.receipts[i]).currency_id,
        ) && has_key(after.stores, after.receipts[i].store_id) by {
            assert(after.receipts[i].currency_id == before.receipts[i].currency_id);
            assert(after.receipts[i].store_id == before.receipts[i].store_id);
        }
        assert forall|i: int| 0 <= i < after.inventories.len() implies has_key(
            after.receipts,
            (#[trigger] after.inventories[i]).receipt_id,
        ) && has_key(after.products, after.inventories[i].product_id) by {
            if let PatchWorkflow::FindInventory(id, payload) = workflow {
                let found = choose|k: int|
                    0 <= k < before.inventories.len() && (#[trigger] before.inventories[k]).key()
                        == id;
                assert(has_key(before.receipts, before.inventories[found].receipt_id));
                assert(has_key(before.products, before.inventories[found].product_id));
            }
            assert(has_key(before.receipts, before.inventories[i].receipt_id));
            assert(has_key(before.products, before.inventories[i].product_id));
        }
    }
}

/// Every command keeps the references of the store whole, however it ends.
pub proof fn law_command_keeps_references(
    before: Database,
    command: WriterCommand,
    outcome: CommandOutcome,
    after: Database,
)
    requires
        before.references_resolve(),
        command.comes_to(before, outcome, after),
    ensures
        after.references_resolve(),
{
    match command {
        WriterCommand::CreateReceipt(form) => {
            law_creation_keeps_references(before, form, outcome->Created_0, after);
        },
        WriterCommand::DeleteReceipt(id) => {
            if has_key(before.receipts, id) {
                law_deletion_keeps_references(before, id);
            }
        },
        _ => {
            law_patch_keeps_references(before, command.patch(), outcome->Patched_0, after);
        },
    }
}

/// The single writer keeps the references of the store whole: after any
/// sequence of commands, executed one after the other, every inventory line
/// still has its receipt and its product, and every receipt its currency
/// and its store.
pub proof fn law_writer_keeps_references(
    before: Database,
    commands: Seq<WriterCommand>,
    outcomes: Seq<CommandOutcome>,
    after: Database,
)
    requires
        before.references_resolve(),
        runs(before, commands, outcomes, after),
    ensures
        after.references_resolve(),
    decreases commands.len(),
{
    if commands.len() > 0 {
        let between = choose|between: Database|
            runs(before, commands.drop_last(), outcomes.drop_last(), between) && #[trigger] commands.last().comes_to(
                between,
                outcomes.last(),
                after,
            );
        law_writer_keeps_references(before, commands.drop_last(), outcomes.drop_last(), between);
        law_command_keeps_references(between, commands.last(), outcomes.last(), after);
    }
}

} // verus!
