use vstd::prelude::*;
use crate::error::TemperatureError;
use crate::reading::{FetchedRow, ImportItem, StoredRow, TimedTemp};
use crate::store::{
    all_converted, apply_all, clear_plan, import_plan, insert_of, latest_of, reading_of,
    readings_of, rows_of, table_after_import, Statement,
};

verus! {

/// Running the inserts of a fully converted batch appends the batch's rows,
/// in batch order, to whatever the table held.
pub proof fn lemma_inserts_append(table: Seq<StoredRow>, batch: Seq<ImportItem>)
    requires
        all_converted(batch),
    ensures
        apply_all(table, batch.map_values(|item: ImportItem| insert_of(item))) == table + rows_of(batch),
    decreases batch.len(),
{
    let stmts = batch.map_values(|item: ImportItem| insert_of(item));
    if batch.len() == 0 {
        assert(table + rows_of(batch) =~= table);
    } else {
        let front = batch.drop_last();
        assert(all_converted(front)) by {
            assert forall|i: int| 0 <= i < front.len() implies (#[trigger] front[i]).centigrade is Some by {
                assert(front[i] == batch[i]);
            }
        }
        lemma_inserts_append(table, front);
        assert(stmts.drop_last() =~= front.map_values(|item: ImportItem| insert_of(item)));
        assert(batch[batch.len() - 1].centigrade is Some);
        assert(table + rows_of(batch) =~= (table + rows_of(front)).push(rows_of(batch).last()));
    }
}

/// Importing a batch whose every reading has a decimal form into an empty
/// table leaves exactly one row per reading, in batch order, each with the
/// reading's timestamp and decimal temperature.
pub proof fn lemma_import_into_empty(batch: Seq<ImportItem>)
    requires
        all_converted(batch),
    ensures
        table_after_import(Seq::empty(), batch) == rows_of(batch),
        rows_of(batch).len() == batch.len(),
        forall|i: int| 0 <= i < batch.len() ==> (#[trigger] rows_of(batch)[i]).timestamp == batch[i].timestamp,
{
    lemma_inserts_append(Seq::empty(), batch);
    assert(Seq::<StoredRow>::empty() + rows_of(batch) =~= rows_of(batch));
}

/// Reading rows that all convert yields one reading per row, in row order,
/// with the row's timestamp and temperature.
pub proof fn lemma_readings_when_all_convert(rows: Seq<FetchedRow>)
    requires
        forall|i: int| 0 <= i < rows.len() ==> (#[trigger] rows[i]).centigrade is Some,
    ensures
        readings_of(rows).len() == rows.len(),
        forall|i: int| 0 <= i < rows.len() ==> Some(#[trigger] readings_of(rows)[i]) == reading_of(rows[i]),
    decreases rows.len(),
{
    if rows.len() > 0 {
        let front = rows.drop_last();
        assert forall|i: int| 0 <= i < front.len() implies (#[trigger] front[i]).centigrade is Some by {
            assert(front[i] == rows[i]);
        }
        lemma_readings_when_all_convert(front);
        assert(rows[rows.len() - 1].centigrade is Some);
        assert forall|i: int| 0 <= i < rows.len() implies Some(#[trigger] readings_of(rows)[i]) == reading_of(rows[i]) by {
            if i < rows.len() - 1 {
                assert(front[i] == rows[i]);
                assert(readings_of(rows)[i] == readings_of(front)[i]);
            }
        }
    }
}

/// Reading the rows of `a` followed by those of `b` yields the readings of
/// `a` followed by those of `b`.
pub proof fn lemma_readings_of_concat(a: Seq<FetchedRow>, b: Seq<FetchedRow>)
    ensures
        readings_of(a + b) == readings_of(a) + readings_of(b),
    decreases b.len(),
{
    if b.len() == 0 {
        assert(a + b =~= a);
        assert(readings_of(a) + readings_of(b) =~= readings_of(a));
    } else {
        assert((a + b).drop_last() =~= a + b.drop_last());
        assert((a + b).last() == b.last());
        lemma_readings_of_concat(a, b.drop_last());
        match reading_of(b.last()) {
            Some(t) => {
                assert(readings_of(a) + readings_of(b.drop_last()).push(t)
                    =~= (readings_of(a) + readings_of(b.drop_last())).push(t));
            },
            None => {},
        }
    }
}

/// Rows fetched in another order yield the same readings in another order.
pub proof fn lemma_readings_of_permutation(a: Seq<FetchedRow>, b: Seq<FetchedRow>)
    requires
        a.to_multiset() == b.to_multiset(),
    ensures
        readings_of(a).to_multiset() == readings_of(b).to_multiset(),
    decreases a.len(),
{
    broadcast use vstd::seq_lib::group_to_multiset_ensures, vstd::multiset::group_multiset_axioms;

    if a.len() == 0 {
        assert(b.to_multiset().len() == 0);
        assert(b =~= Seq::<FetchedRow>::empty());
    } else {
        let x = a.last();
        let front = a.drop_last();
        assert(a =~= front.push(x));
        assert(a =~= front + seq![x]);
        assert(a.to_multiset() =~= front.to_multiset().insert(x));
        assert(b.to_multiset().count(x) > 0);
        assert(b.contains(x));
        let j = choose|j: int| 0 <= j < b.len() && b[j] == x;
        let rest = b.remove(j);
        assert(rest.to_multiset() =~= b.to_multiset().remove(x));
        assert(rest.to_multiset() =~= front.to_multiset());
        lemma_readings_of_permutation(front, rest);
        let p = b.subrange(0, j);
        let q = b.subrange(j + 1, b.len() as int);
        assert(b =~= (p + seq![x]) + q);
        assert(rest =~= p + q);
        lemma_readings_of_concat(p + seq![x], q);
        lemma_readings_of_concat(p, seq![x]);
        lemma_readings_of_concat(p, q);
        lemma_readings_of_concat(front, seq![x]);
        vstd::seq_lib::lemma_multiset_commutative(readings_of(p) + readings_of(seq![x]), readings_of(q));
        vstd::seq_lib::lemma_multiset_commutative(readings_of(p), readings_of(seq![x]));
        vstd::seq_lib::lemma_multiset_commutative(readings_of(p), readings_of(q));
        vstd::seq_lib::lemma_multiset_commutative(readings_of(front), readings_of(seq![x]));
        assert(readings_of(a).to_multiset() =~= readings_of(b).to_multiset());
    }
}

/// Exporting the readings of `exported`, importing them as `batch` into an
/// empty table, and reading that table back gives the exported readings
/// again, in whatever order the rows come back: `table` is the imported
/// table's rows as read, in table order, and `reread` the same rows in the
/// order the query returned them. Where each exported temperature converted
/// to a decimal and that decimal converts back to the same temperature.
pub proof fn lemma_export_import_round_trip(
    exported: Seq<FetchedRow>,
    batch: Seq<ImportItem>,
    table: Seq<FetchedRow>,
    reread: Seq<FetchedRow>,
)
    requires
        batch.len() == readings_of(exported).len(),
        forall|i: int|
            0 <= i < batch.len() ==> (#[trigger] batch[i]).timestamp == readings_of(exported)[i].timestamp
                && batch[i].centigrade is Some,
        table.len() == batch.len(),
        forall|i: int|
            0 <= i < table.len() ==> (#[trigger] table[i]).timestamp == batch[i].timestamp
                && table[i].centigrade == Some(readings_of(exported)[i].centigrade),
        reread.to_multiset() == table.to_multiset(),
    ensures
        table_after_import(Seq::empty(), batch) == rows_of(batch),
        forall|i: int| 0 <= i < batch.len() ==> (#[trigger] rows_of(batch)[i]).timestamp == table[i].timestamp,
        readings_of(table) == readings_of(exported),
        readings_of(reread).to_multiset() == readings_of(exported).to_multiset(),
{
    assert(all_converted(batch)) by {
        assert forall|i: int| 0 <= i < batch.len() implies (#[trigger] batch[i]).centigrade is Some by {}
    }
    lemma_import_into_empty(batch);
    lemma_readings_when_all_convert(table);
    let r = readings_of(exported);
    assert forall|i: int| 0 <= i < r.len() implies #[trigger] readings_of(table)[i] == r[i] by {
        assert(Some(readings_of(table)[i]) == reading_of(table[i]));
        assert(table[i].timestamp == batch[i].timestamp);
        assert(batch[i].timestamp == r[i].timestamp);
    }
    assert(readings_of(table) =~= r);
    lemma_readings_of_permutation(reread, table);
}

/// Clearing succeeds on any table and leaves it empty; clearing again right
/// after leaves it empty as well.
pub proof fn lemma_clear_twice(table: Seq<StoredRow>)
    ensures
        apply_all(table, clear_plan()) == Seq::<StoredRow>::empty(),
        apply_all(apply_all(table, clear_plan()), clear_plan()) == Seq::<StoredRow>::empty(),
{
    assert(clear_plan().drop_last() =~= Seq::<Statement>::empty());
    let once = apply_all(table, clear_plan());
    assert(once == apply_all(once, clear_plan()));
}

/// An import batch in which some reading has no decimal form runs no
/// statement and leaves the table exactly as it was.
pub proof fn lemma_import_atomic(table: Seq<StoredRow>, batch: Seq<ImportItem>, bad: int)
    requires
        0 <= bad < batch.len(),
        batch[bad].centigrade is None,
    ensures
        import_plan(batch) is None,
        table_after_import(table, batch) == table,
{
}

/// On an empty table the latest reading is `NotFound` and the list of all
/// readings is empty.
pub proof fn lemma_empty_table()
    ensures
        latest_of(Seq::empty()) == Err::<TimedTemp, TemperatureError>(TemperatureError::NotFound),
        readings_of(Seq::empty()) == Seq::<TimedTemp>::empty(),
{
}

/// Of one row whose temperature did not convert and one that did, in either
/// order, reading all rows yields exactly the convertible one.
pub proof fn lemma_lossy_read(bad: FetchedRow, good: FetchedRow)
    requires
        bad.centigrade is None,
        good.centigrade is Some,
    ensures
        readings_of(seq![bad, good]) == seq![reading_of(good).unwrap()],
        readings_of(seq![good, bad]) == seq![reading_of(good).unwrap()],
{
    let none = Seq::<FetchedRow>::empty();
    let t = reading_of(good).unwrap();
    assert(readings_of(none) == Seq::<TimedTemp>::empty());
    assert(seq![bad].drop_last() =~= none);
    assert(readings_of(seq![bad]) == Seq::<TimedTemp>::empty());
    assert(seq![good].drop_last() =~= none);
    assert(readings_of(seq![good]) =~= seq![t]);
    assert(seq![bad, good].drop_last() =~= seq![bad]);
    assert(readings_of(seq![bad, good]) =~= seq![t]);
    assert(seq![good, bad].drop_last() =~= seq![good]);
    assert(readings_of(seq![good, bad]) =~= seq![t]);
}

} // verus!
