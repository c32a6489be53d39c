use chrono::{DateTime, Utc};
use rust_decimal::prelude::ToPrimitive;
use rust_decimal::Decimal;
use temperature_tools::config::{conn_string, ConnConfig};
use temperature_tools::error::TemperatureError;
use temperature_tools::reading::{Centigrade, FetchedRow, ImportItem, StoredRow, Timestamp, TimedTemp};
use temperature_tools::store::{all_temps, clear_all, import_many, last_temp, Statement};

fn ts(text: &str) -> Timestamp {
    let dt: DateTime<Utc> = DateTime::parse_from_rfc3339(text).unwrap().with_timezone(&Utc);
    Timestamp { secs: dt.timestamp(), nanos: dt.timestamp_subsec_nanos() }
}

fn deg(v: f32) -> Centigrade {
    Centigrade { bits: v.to_bits() }
}

fn item(text: &str, v: f32) -> ImportItem {
    ImportItem { timestamp: ts(text), centigrade: Decimal::try_from(v).ok() }
}

fn inserted_rows(stmts: &[Statement]) -> Vec<StoredRow> {
    stmts
        .iter()
        .map(|s| match s {
            Statement::Insert(row) => *row,
            Statement::DeleteAll => panic!("unexpected delete"),
        })
        .collect()
}

fn fetched(row: &StoredRow) -> FetchedRow {
    FetchedRow { timestamp: row.timestamp, centigrade: row.centigrade.to_f32().map(deg) }
}

#[test]
fn it_works() {
    assert_eq!(2 + 2, 4);
}

#[test]
fn import_then_read_scenario() {
    let batch = vec![item("2024-01-01T00:00:00Z", 21.5), item("2024-01-02T00:00:00Z", 19.0)];
    let stmts = import_many(&batch).unwrap();
    let rows = inserted_rows(&stmts);
    assert_eq!(rows.len(), 2);
    let table: Vec<FetchedRow> = rows.iter().map(fetched).collect();

    let all = all_temps(&table);
    assert_eq!(all.len(), 2);
    let first = TimedTemp { timestamp: ts("2024-01-01T00:00:00Z"), centigrade: deg(21.5) };
    let second = TimedTemp { timestamp: ts("2024-01-02T00:00:00Z"), centigrade: deg(19.0) };
    assert!(all.contains(&first));
    assert!(all.contains(&second));

    let mut newest_first = table.clone();
    newest_first.sort_by(|a, b| (b.timestamp.secs, b.timestamp.nanos).cmp(&(a.timestamp.secs, a.timestamp.nanos)));
    let latest = last_temp(&newest_first).unwrap();
    assert_eq!(latest, second);
    assert_eq!(f32::from_bits(latest.centigrade.bits), 19.0);
    assert_eq!(latest.timestamp.secs, 1704153600);
}

#[test]
fn export_then_import_round_trip() {
    let stored = vec![
        FetchedRow { timestamp: ts("2023-05-01T10:30:00Z"), centigrade: Some(deg(-3.25)) },
        FetchedRow { timestamp: ts("2023-04-01T08:00:00Z"), centigrade: Some(deg(18.0)) },
    ];
    let exported = all_temps(&stored);
    let batch: Vec<ImportItem> = exported
        .iter()
        .map(|t| ImportItem {
            timestamp: t.timestamp,
            centigrade: Decimal::try_from(f32::from_bits(t.centigrade.bits)).ok(),
        })
        .collect();
    let rows = inserted_rows(&import_many(&batch).unwrap());
    let table: Vec<FetchedRow> = rows.iter().map(fetched).collect();
    let read_back = all_temps(&table);
    assert_eq!(read_back.len(), exported.len());
    for t in &exported {
        assert!(read_back.contains(t));
    }
}

#[test]
fn import_with_unrepresentable_value_fails_whole_batch() {
    let batch = vec![item("2024-01-01T00:00:00Z", 21.5), item("2024-01-02T00:00:00Z", f32::NAN)];
    assert!(batch[1].centigrade.is_none());
    assert!(matches!(import_many(&batch), Err(TemperatureError::TemperatureError)));
    let huge = vec![item("2024-01-03T00:00:00Z", 1.0e30)];
    assert!(matches!(import_many(&huge), Err(TemperatureError::TemperatureError)));
}

#[test]
fn import_of_empty_batch_has_no_statement() {
    let stmts = import_many(&vec![]).unwrap();
    assert!(stmts.is_empty());
}

#[test]
fn import_keeps_batch_order() {
    let batch = vec![
        item("2024-03-01T00:00:00Z", 1.5),
        item("2024-01-01T00:00:00Z", 2.5),
        item("2024-01-01T00:00:00Z", 2.5),
    ];
    let rows = inserted_rows(&import_many(&batch).unwrap());
    assert_eq!(rows.len(), 3);
    assert_eq!(rows[0].timestamp, ts("2024-03-01T00:00:00Z"));
    assert_eq!(rows[0].centigrade, Decimal::new(15, 1));
    assert_eq!(rows[1].timestamp, ts("2024-01-01T00:00:00Z"));
    assert_eq!(rows[2].centigrade, Decimal::new(25, 1));
}

#[test]
fn clear_twice_deletes_every_row() {
    for _ in 0..2 {
        let stmts = clear_all();
        assert_eq!(stmts.len(), 1);
        assert!(matches!(stmts[0], Statement::DeleteAll));
    }
}

#[test]
fn empty_table_has_no_latest_and_no_readings() {
    assert!(matches!(last_temp(&vec![]), Err(TemperatureError::NotFound)));
    assert!(all_temps(&vec![]).is_empty());
}

#[test]
fn read_all_drops_unconvertible_rows() {
    let bad = FetchedRow { timestamp: ts("2024-01-01T00:00:00Z"), centigrade: None };
    let good = FetchedRow { timestamp: ts("2024-01-02T00:00:00Z"), centigrade: Some(deg(7.0)) };
    let expected = TimedTemp { timestamp: good.timestamp, centigrade: deg(7.0) };
    assert_eq!(all_temps(&vec![bad, good]), vec![expected]);
    assert_eq!(all_temps(&vec![good, bad]), vec![expected]);
}

#[test]
fn latest_with_unconvertible_value_is_a_conversion_error() {
    let bad = FetchedRow { timestamp: ts("2024-01-02T00:00:00Z"), centigrade: None };
    let good = FetchedRow { timestamp: ts("2024-01-01T00:00:00Z"), centigrade: Some(deg(7.0)) };
    assert!(matches!(last_temp(&vec![bad, good]), Err(TemperatureError::TemperatureError)));
}

#[test]
fn conn_string_prefers_explicit_string() {
    let cfg = ConnConfig { conn: Some("host=db user=x".to_string()), user: Some("bob".to_string()) };
    assert_eq!(conn_string(&cfg), "host=db user=x");
}

#[test]
fn conn_string_defaults_with_user() {
    let cfg = ConnConfig { conn: None, user: Some("alice".to_string()) };
    assert_eq!(conn_string(&cfg), "host='localhost' dbname='home' user='alice'");
}

#[test]
fn conn_string_defaults_with_placeholder() {
    let cfg = ConnConfig { conn: None, user: None };
    assert_eq!(conn_string(&cfg), "host='localhost' dbname='home' user='<<HOME_USER>>'");
}

#[test]
fn error_messages() {
    assert_eq!(TemperatureError::NotFound.message(), "no temperatures found");
    assert_eq!(TemperatureError::TemperatureError.message(), "General temperature error");
    assert_eq!(TemperatureError::IOError("x".to_string()).message(), "IO Error");
}
