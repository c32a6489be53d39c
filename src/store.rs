use vstd::prelude::*;
use crate::error::TemperatureError;
use crate::reading::{FetchedRow, ImportItem, StoredRow, TimedTemp};

verus! {

/// A statement that an operation runs against the table, inside one
/// transaction that is committed only after every statement succeeded.
#[derive(Clone, Copy, Debug)]
pub enum Statement {
    /// Insert one row.
    Insert(StoredRow),
    /// Delete every row.
    DeleteAll,
}

/// The reading that a fetched row yields, if its temperature converted.
pub open spec fn reading_of(row: FetchedRow) -> Option<TimedTemp> {
    match row.centigrade {
        Some(c) => Some(TimedTemp { timestamp: row.timestamp, centigrade: c }),
        None => None,
    }
}

/// The readings of the fetched rows, in row order, leaving out every row
/// whose temperature did not convert.
pub open spec fn readings_of(rows: Seq<FetchedRow>) -> Seq<TimedTemp>
    decreases rows.len(),
{
    if rows.len() == 0 {
        Seq::empty()
    } else {
        let rest = readings_of(rows.drop_last());
        match reading_of(rows.last()) {
            Some(t) => rest.push(t),
            None => rest,
        }
    }
}

/// What the latest-reading query yields: the query orders by timestamp,
/// newest first, so its first row is the latest one.
pub open spec fn latest_of(rows: Seq<FetchedRow>) -> Result<TimedTemp, TemperatureError> {
    if rows.len() == 0 {
        Err(TemperatureError::NotFound)
    } else {
        match reading_of(rows[0]) {
            Some(t) => Ok(t),
            None => Err(TemperatureError::TemperatureError),
        }
    }
}

/// Whether every reading of an import batch has a decimal form.
pub open spec fn all_converted(batch: Seq<ImportItem>) -> bool {
    forall|i: int| 0 <= i < batch.len() ==> (#[trigger] batch[i]).centigrade is Some
}

/// The insert statement for one converted reading of a batch.
pub open spec fn insert_of(item: ImportItem) -> Statement {
    Statement::Insert(StoredRow { timestamp: item.timestamp, centigrade: item.centigrade.unwrap() })
}

/// The statements that import a batch: one insert per reading, in batch
/// order, or none at all when some reading has no decimal form.
pub open spec fn import_plan(batch: Seq<ImportItem>) -> Option<Seq<Statement>> {
    if all_converted(batch) {
        Some(batch.map_values(|item: ImportItem| insert_of(item)))
    } else {
        None
    }
}

/// The table after one statement.
pub open spec fn apply_statement(table: Seq<StoredRow>, s: Statement) -> Seq<StoredRow> {
    match s {
        Statement::Insert(row) => table.push(row),
        Statement::DeleteAll => Seq::empty(),
    }
}

/// The table after a committed transaction that ran `stmts` in order.
pub open spec fn apply_all(table: Seq<StoredRow>, stmts: Seq<Statement>) -> Seq<StoredRow>
    decreases stmts.len(),
{
    if stmts.len() == 0 {
        table
    } else {
        apply_statement(apply_all(table, stmts.drop_last()), stmts.last())
    }
}

/// The table after an import of `batch`: a batch that cannot be converted in
/// full runs no statement and leaves the table as it was.
pub open spec fn table_after_import(table: Seq<StoredRow>, batch: Seq<ImportItem>) -> Seq<StoredRow> {
    match import_plan(batch) {
        Some(stmts) => apply_all(table, stmts),
        None => table,
    }
}

/// The statements that clear the table.
pub open spec fn clear_plan() -> Seq<Statement> {
    seq![Statement::DeleteAll]
}

/// The rows that a batch becomes once every reading converted.
pub open spec fn rows_of(batch: Seq<ImportItem>) -> Seq<StoredRow> {
    batch.map_values(|item: ImportItem| StoredRow { timestamp: item.timestamp, centigrade: item.centigrade.unwrap() })
}

/// All readings of the table, from the rows of the full-table query: rows
/// whose temperature did not convert are left out, without an error.
pub fn all_temps(rows: &Vec<FetchedRow>) -> (r: Vec<TimedTemp>)
    ensures
        r@ == readings_of(rows@),
{
    let mut temps: Vec<TimedTemp> = Vec::new();
    let mut i: usize = 0;
    while i < rows.len()
        invariant
            i <= rows.len(),
            temps@ == readings_of(rows@.subrange(0, i as int)),
        decreases rows.len() - i,
    {
        let row = rows[i];
        proof {
            let pre = rows@.subrange(0, i as int + 1);
            assert(pre.drop_last() =~= rows@.subrange(0, i as int));
            assert(pre.last() == row);
        }
        match row.centigrade {
            Some(c) => temps.push(TimedTemp { timestamp: row.timestamp, centigrade: c }),
            None => {},
        }
        i = i + 1;
    }
    assert(rows@.subrange(0, rows.len() as int) =~= rows@);
    temps
}

/// The latest reading, from the rows of the query that orders by timestamp,
/// newest first: `NotFound` when there is no row, a conversion error when
/// the newest row's temperature did not convert.
pub fn last_temp(rows: &Vec<FetchedRow>) -> (r: Result<TimedTemp, TemperatureError>)
    ensures
        r == latest_of(rows@),
{
    if rows.len() == 0 {
        return Err(TemperatureError::NotFound);
    }
    let latest = rows[0];
    match latest.centigrade {
        Some(c) => Ok(TimedTemp { timestamp: latest.timestamp, centigrade: c }),
        None => Err(TemperatureError::TemperatureError),
    }
}

/// The statements that import a batch inside one transaction, in batch
/// order; a conversion error, and no statement at all, when some reading of
/// the batch has no decimal form.
pub fn import_many(batch: &Vec<ImportItem>) -> (r: Result<Vec<Statement>, TemperatureError>)
    ensures
        r is Ok <==> all_converted(batch@),
        r matches Ok(stmts) ==> import_plan(batch@) == Some(stmts@),
        r matches Err(e) ==> e == TemperatureError::TemperatureError,
{
    let mut stmts: Vec<Statement> = Vec::new();
    let mut i: usize = 0;
    while i < batch.len()
        invariant
            i <= batch.len(),
            stmts@ =~= batch@.subrange(0, i as int).map_values(|item: ImportItem| insert_of(item)),
            forall|j: int| 0 <= j < i ==> (#[trigger] batch@[j]).centigrade is Some,
        decreases batch.len() - i,
    {
        let item = batch[i];
        match item.centigrade {
            Some(d) => {
                stmts.push(Statement::Insert(StoredRow { timestamp: item.timestamp, centigrade: d }));
            },
            None => {
                return Err(TemperatureError::TemperatureError);
            },
        }
        i = i + 1;
        assert(stmts@ =~= batch@.subrange(0, i as int).map_values(|item: ImportItem| insert_of(item)));
    }
    assert(batch@.subrange(0, batch.len() as int) =~= batch@);
    Ok(stmts)
}

/// The statements that clear the table inside one transaction.
pub fn clear_all() -> (r: Vec<Statement>)
    ensures
        r@ == clear_plan(),
{
    let r = vec![Statement::DeleteAll];
    assert(r@ =~= clear_plan());
    r
}

} // verus!
