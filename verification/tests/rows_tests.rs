use api_switch::models::{ApiEntry, ApiKey, Channel, ChartDataPoint, ModelRanking, RequestLog, Settings};
use api_switch::rows::{
    check_row, decode_first_row, decode_optional_row, decode_rows, read_first_row, read_optional_row, read_rows,
    ColumnKind, FromRow,
};
use api_switch::sql::{DbError, SqlValue};

fn t(s: &str) -> SqlValue {
    SqlValue::Text(s.to_string())
}

fn entry_row() -> Vec<SqlValue> {
    vec![
        t("e1"),
        t("c1"),
        SqlValue::Null,
        t("gpt-4"),
        t("GPT"),
        SqlValue::Integer(2),
        SqlValue::Integer(-3),
        SqlValue::Integer(7),
        SqlValue::Integer(1),
        SqlValue::Null,
        SqlValue::Integer(99),
        t("2024-01-01"),
    ]
}

#[test]
fn entry_row_decodes() {
    let e = ApiEntry::from_row(&entry_row()).unwrap();
    assert_eq!(
        e,
        ApiEntry {
            id: "e1".into(),
            channel_id: "c1".into(),
            channel_name: None,
            model: "gpt-4".into(),
            display_name: Some("GPT".into()),
            enabled: true,
            priority: -3,
            sort_index: 7,
            weight: 1,
            response_ms: None,
            cooldown_until: Some(99),
            created_at: "2024-01-01".into(),
        }
    );
}

#[test]
fn zero_flag_is_false() {
    let mut row = entry_row();
    row[5] = SqlValue::Integer(0);
    assert!(!ApiEntry::from_row(&row).unwrap().enabled);
}

#[test]
fn missing_column_is_invalid_index() {
    let mut row = entry_row();
    row.truncate(11);
    assert!(matches!(ApiEntry::from_row(&row), Err(DbError::InvalidColumnIndex(11))));
}

#[test]
fn wrong_type_is_invalid_column_type() {
    let mut row = entry_row();
    row[0] = SqlValue::Integer(1);
    assert!(matches!(ApiEntry::from_row(&row), Err(DbError::InvalidColumnType(0))));
    let mut row = entry_row();
    row[10] = t("soon");
    assert!(matches!(ApiEntry::from_row(&row), Err(DbError::InvalidColumnType(10))));
    let mut row = entry_row();
    row[6] = SqlValue::Real;
    assert!(matches!(ApiEntry::from_row(&row), Err(DbError::InvalidColumnType(6))));
}

#[test]
fn null_in_required_text_is_invalid_column_type() {
    let mut row = entry_row();
    row[3] = SqlValue::Null;
    assert!(matches!(ApiEntry::from_row(&row), Err(DbError::InvalidColumnType(3))));
}

#[test]
fn out_of_range_integer() {
    let mut row = entry_row();
    row[7] = SqlValue::Integer(1 << 40);
    assert!(matches!(
        ApiEntry::from_row(&row),
        Err(DbError::IntegralValueOutOfRange(7, v)) if v == 1 << 40
    ));
}

#[test]
fn bytes_that_are_not_utf8() {
    let mut row = entry_row();
    row[4] = SqlValue::NotUtf8;
    assert!(matches!(ApiEntry::from_row(&row), Err(DbError::NotUtf8(4))));
}

#[test]
fn first_bad_column_decides() {
    let mut row = entry_row();
    row[8] = SqlValue::Blob(vec![1]);
    row[2] = SqlValue::Integer(5);
    assert!(matches!(ApiEntry::from_row(&row), Err(DbError::InvalidColumnType(2))));
}

#[test]
fn check_row_accepts_matching_kinds() {
    let row = vec![t("x"), SqlValue::Null, SqlValue::Integer(i64::MIN)];
    let kinds = vec![ColumnKind::Text, ColumnKind::OptInt, ColumnKind::Int];
    assert!(check_row(&row, &kinds).is_ok());
    let kinds = vec![ColumnKind::Text, ColumnKind::OptText, ColumnKind::Int32];
    assert!(matches!(check_row(&row, &kinds), Err(DbError::IntegralValueOutOfRange(2, _))));
}

#[test]
fn channel_key_log_settings_rows_decode() {
    let c = Channel::from_row(&vec![
        t("c"), t("n"), t("openai"), t("http://x"), t("k"), t("[]"),
        SqlValue::Integer(1), SqlValue::Integer(2), SqlValue::Integer(3), t("a"), t("b"),
    ])
    .unwrap();
    assert_eq!(c.priority, 2);
    assert_eq!(c.weight, 3);
    assert!(c.enabled);
    let k = ApiKey::from_row(&vec![
        t("i"), t("n"), t("sk-1"), SqlValue::Integer(4), SqlValue::Integer(10), SqlValue::Integer(0), t("d"),
    ])
    .unwrap();
    assert_eq!((k.usage_count, k.usage_limit, k.enabled), (4, 10, false));
    let l = RequestLog::from_row(&vec![
        t("l"), SqlValue::Null, t("cn"), t("m"), SqlValue::Null, t("chat"), SqlValue::Integer(200),
        SqlValue::Integer(12), SqlValue::Integer(3), SqlValue::Integer(4), SqlValue::Null, t("now"),
    ])
    .unwrap();
    assert_eq!(l.channel_name.as_deref(), Some("cn"));
    assert_eq!(l.status_code, 200);
    let s = Settings::from_row(&vec![
        SqlValue::Integer(5), SqlValue::Integer(300), SqlValue::Integer(3), SqlValue::Integer(60000),
        SqlValue::Integer(1), SqlValue::Integer(0), t(""),
    ])
    .unwrap();
    assert_eq!(s, Settings::default());
    let r = ModelRanking::from_row(&vec![t("m"), SqlValue::Integer(2), SqlValue::Integer(30)]).unwrap();
    assert_eq!((r.count, r.tokens), (2, 30));
    let p = ChartDataPoint::from_row(&vec![t("2024-01-01"), t("m"), SqlValue::Integer(9)]).unwrap();
    assert_eq!(p.value, 9);
}

#[test]
fn decode_rows_keeps_order_and_stops_at_first_error() {
    let rows = vec![vec![t("a")], vec![t("b")]];
    assert_eq!(decode_rows::<String>(&rows).unwrap(), vec!["a".to_string(), "b".to_string()]);
    let rows = vec![vec![t("a")], vec![SqlValue::Null], vec![]];
    assert!(matches!(decode_rows::<String>(&rows), Err(DbError::InvalidColumnType(0))));
    let none: Vec<Vec<SqlValue>> = vec![];
    assert!(decode_rows::<String>(&none).unwrap().is_empty());
}

#[test]
fn first_row_of_no_rows_is_an_error() {
    let none: Vec<Vec<SqlValue>> = vec![];
    assert!(matches!(decode_first_row::<i64>(&none), Err(DbError::NoRows)));
    assert_eq!(decode_first_row::<i64>(&vec![vec![SqlValue::Integer(3)], vec![t("x")]]).unwrap(), 3);
}

#[test]
fn optional_row() {
    let none: Vec<Vec<SqlValue>> = vec![];
    assert_eq!(decode_optional_row::<String>(&none).unwrap(), None);
    assert_eq!(decode_optional_row::<(String, String)>(&vec![vec![t("1"), t("root")]]).unwrap(),
        Some(("1".to_string(), "root".to_string())));
    assert!(matches!(decode_optional_row::<i32>(&vec![vec![t("1")]]), Err(DbError::InvalidColumnType(0))));
}

fn engine_error() -> Option<DbError> {
    Some(DbError::Sqlite(rusqlite::Error::InvalidQuery))
}

#[test]
fn list_stops_at_the_first_failure() {
    let good = vec![SqlValue::Integer(1)];
    let bad = vec![t("x")];
    let rows = vec![good.clone(), good.clone()];
    assert_eq!(read_rows::<i64>(&rows, None).unwrap(), vec![1, 1]);
    assert!(matches!(read_rows::<i64>(&rows, engine_error()), Err(DbError::Sqlite(_))));
    let rows = vec![good.clone(), bad];
    assert!(matches!(read_rows::<i64>(&rows, engine_error()), Err(DbError::InvalidColumnType(0))));
    assert!(matches!(read_rows::<i64>(&vec![], engine_error()), Err(DbError::Sqlite(_))));
}

#[test]
fn single_row_reads_only_the_first_row() {
    let rows = vec![vec![SqlValue::Integer(7)]];
    assert_eq!(read_first_row::<i64>(&rows, engine_error()).unwrap(), 7);
    assert_eq!(read_optional_row::<i64>(&rows, engine_error()).unwrap(), Some(7));
    assert!(matches!(read_first_row::<i64>(&vec![], engine_error()), Err(DbError::Sqlite(_))));
    assert!(matches!(read_first_row::<i64>(&vec![], None), Err(DbError::NoRows)));
    assert!(matches!(read_optional_row::<i64>(&vec![], engine_error()), Err(DbError::Sqlite(_))));
    assert_eq!(read_optional_row::<i64>(&vec![], None).unwrap(), None);
}
