//! Decoding result rows into records.
//!
//! A row is read column by column as the record's fields require; the first
//! column that is missing or holds a value of the wrong type decides the
//! error, as reading the columns in order would.

use vstd::prelude::*;
use crate::models::{ApiEntry, ApiKey, Channel, ChartDataPoint, ModelRanking, RequestLog, Settings};
use crate::sql::{DbError, SqlValue};

verus! {

/// The type a column is read as.
#[derive(Clone, Copy, Debug, PartialEq, Eq)]
pub enum ColumnKind {
    /// Text, not null.
    Text,
    /// Text or null.
    OptText,
    /// A 64-bit integer, not null.
    Int,
    /// A 64-bit integer or null.
    OptInt,
    /// An integer within the range of `i32`, not null.
    Int32,
}

/// An error of reading a column: missing, of the wrong type, out of range
/// or not UTF-8.
pub open spec fn is_read_error(e: DbError) -> bool {
    ||| e is InvalidColumnIndex
    ||| e is InvalidColumnType
    ||| e is IntegralValueOutOfRange
    ||| e is NotUtf8
}

/// The error of reading value `v` of column `i` as `kind`, if any.
pub open spec fn column_error(v: SqlValue, kind: ColumnKind, i: int) -> Option<DbError> {
    let idx = i as usize;
    match kind {
        ColumnKind::Text => match v {
            SqlValue::Text(_) => None,
            SqlValue::NotUtf8 => Some(DbError::NotUtf8(idx)),
            _ => Some(DbError::InvalidColumnType(idx)),
        },
        ColumnKind::OptText => match v {
            SqlValue::Null => None,
            SqlValue::Text(_) => None,
            SqlValue::NotUtf8 => Some(DbError::NotUtf8(idx)),
            _ => Some(DbError::InvalidColumnType(idx)),
        },
        ColumnKind::Int => match v {
            SqlValue::Integer(_) => None,
            _ => Some(DbError::InvalidColumnType(idx)),
        },
        ColumnKind::OptInt => match v {
            SqlValue::Null => None,
            SqlValue::Integer(_) => None,
            _ => Some(DbError::InvalidColumnType(idx)),
        },
        ColumnKind::Int32 => match v {
            SqlValue::Integer(n) => if i32::MIN <= n <= i32::MAX {
                None
            } else {
                Some(DbError::IntegralValueOutOfRange(idx, n))
            },
            _ => Some(DbError::InvalidColumnType(idx)),
        },
    }
}

/// The error of reading columns `i..` of `row` as `kinds`, if any: the
/// first column that is missing or of the wrong type.
pub open spec fn first_error(row: Seq<SqlValue>, kinds: Seq<ColumnKind>, i: nat) -> Option<DbError>
    decreases kinds.len() - i,
{
    if i >= kinds.len() {
        None
    } else if i >= row.len() {
        Some(DbError::InvalidColumnIndex(i as usize))
    } else {
        match column_error(row[i as int], kinds[i as int], i as int) {
            Some(e) => Some(e),
            None => first_error(row, kinds, i + 1),
        }
    }
}

/// The error of reading `row` as `kinds`, if any.
pub open spec fn row_error(row: Seq<SqlValue>, kinds: Seq<ColumnKind>) -> Option<DbError> {
    first_error(row, kinds, 0)
}

/// A row that reads without error has every column, each of its kind.
pub proof fn lemma_row_readable(row: Seq<SqlValue>, kinds: Seq<ColumnKind>, i: nat)
    requires
        first_error(row, kinds, i) is None,
    ensures
        forall|j: int|
            i <= j < kinds.len() ==> j < row.len() && column_error(row[j], kinds[j], j) is None,
    decreases kinds.len() - i,
{
    if i < kinds.len() {
        lemma_row_readable(row, kinds, i + 1);
    }
}

/// The text of a text value.
pub open spec fn text_of(v: SqlValue) -> String {
    v->Text_0
}

/// The text of a text value, `None` for null.
pub open spec fn opt_text_of(v: SqlValue) -> Option<String> {
    match v {
        SqlValue::Text(s) => Some(s),
        _ => None,
    }
}

/// The integer of an integer value.
pub open spec fn int_of(v: SqlValue) -> i64 {
    v->Integer_0
}

/// The integer of an integer value, `None` for null.
pub open spec fn opt_int_of(v: SqlValue) -> Option<i64> {
    match v {
        SqlValue::Integer(n) => Some(n),
        _ => None,
    }
}

/// The integer of an integer value within the range of `i32`.
pub open spec fn int32_of(v: SqlValue) -> i32 {
    v->Integer_0 as i32
}

/// A flag stored as an integer: any value but 0 is set.
pub open spec fn flag_of(v: SqlValue) -> bool {
    v->Integer_0 != 0
}

fn column_check(v: &SqlValue, kind: ColumnKind, i: usize) -> (r: Option<DbError>)
    ensures
        r == column_error(*v, kind, i as int),
        r matches Some(e) ==> is_read_error(e),
{
    match kind {
        ColumnKind::Text => match v {
            SqlValue::Text(_) => None,
            SqlValue::NotUtf8 => Some(DbError::NotUtf8(i)),
            _ => Some(DbError::InvalidColumnType(i)),
        },
        ColumnKind::OptText => match v {
            SqlValue::Null => None,
            SqlValue::Text(_) => None,
            SqlValue::NotUtf8 => Some(DbError::NotUtf8(i)),
            _ => Some(DbError::InvalidColumnType(i)),
        },
        ColumnKind::Int => match v {
            SqlValue::Integer(_) => None,
            _ => Some(DbError::InvalidColumnType(i)),
        },
        ColumnKind::OptInt => match v {
            SqlValue::Null => None,
            SqlValue::Integer(_) => None,
            _ => Some(DbError::InvalidColumnType(i)),
        },
        ColumnKind::Int32 => match v {
            SqlValue::Integer(n) => if i32::MIN as i64 <= *n && *n <= i32::MAX as i64 {
                None
            } else {
                Some(DbError::IntegralValueOutOfRange(i, *n))
            },
            _ => Some(DbError::InvalidColumnType(i)),
        },
    }
}

/// Checks that `row` reads as `kinds`.
pub fn check_row(row: &Vec<SqlValue>, kinds: &Vec<ColumnKind>) -> (r: Result<(), DbError>)
    ensures
        match r {
            Ok(()) => row_error(row@, kinds@) is None,
            Err(e) => row_error(row@, kinds@) == Some(e) && is_read_error(e),
        },
{
    let mut i: usize = 0;
    while i < kinds.len()
        invariant
            i <= kinds@.len(),
            first_error(row@, kinds@, 0) == first_error(row@, kinds@, i as nat),
        decreases kinds@.len() - i,
    {
        if i >= row.len() {
            return Err(DbError::InvalidColumnIndex(i));
        }
        match column_check(&row[i], kinds[i], i) {
            Some(e) => {
                return Err(e);
            },
            None => {},
        }
        i = i + 1;
    }
    Ok(())
}

fn text_at(row: &Vec<SqlValue>, i: usize) -> (r: String)
    requires
        i < row@.len(),
        row@[i as int] is Text,
    ensures
        r == text_of(row@[i as int]),
{
    match &row[i] {
        SqlValue::Text(s) => s.clone(),
        _ => String::new(),
    }
}

fn opt_text_at(row: &Vec<SqlValue>, i: usize) -> (r: Option<String>)
    requires
        i < row@.len(),
    ensures
        r == opt_text_of(row@[i as int]),
{
    match &row[i] {
        SqlValue::Text(s) => Some(s.clone()),
        _ => None,
    }
}

fn int_at(row: &Vec<SqlValue>, i: usize) -> (r: i64)
    requires
        i < row@.len(),
        row@[i as int] is Integer,
    ensures
        r == int_of(row@[i as int]),
{
    match &row[i] {
        SqlValue::Integer(n) => *n,
        _ => 0,
    }
}

fn opt_int_at(row: &Vec<SqlValue>, i: usize) -> (r: Option<i64>)
    requires
        i < row@.len(),
    ensures
        r == opt_int_of(row@[i as int]),
{
    match &row[i] {
        SqlValue::Integer(n) => Some(*n),
        _ => None,
    }
}

fn int32_at(row: &Vec<SqlValue>, i: usize) -> (r: i32)
    requires
        i < row@.len(),
        column_error(row@[i as int], ColumnKind::Int32, i as int) is None,
    ensures
        r == int32_of(row@[i as int]),
{
    match &row[i] {
        SqlValue::Integer(n) => *n as i32,
        _ => 0,
    }
}

fn flag_at(row: &Vec<SqlValue>, i: usize) -> (r: bool)
    requires
        i < row@.len(),
        column_error(row@[i as int], ColumnKind::Int32, i as int) is None,
    ensures
        r == flag_of(row@[i as int]),
{
    int32_at(row, i) != 0
}

/// A record that is read from one result row.
pub trait FromRow: Sized {
    /// The record `row` reads as, or the error of reading it.
    spec fn spec_from_row(row: Seq<SqlValue>) -> Result<Self, DbError>;

    /// Reads a record from `row`.
    fn from_row(row: &Vec<SqlValue>) -> (r: Result<Self, DbError>)
        ensures
            r == Self::spec_from_row(row@),
            r matches Err(e) ==> is_read_error(e),
    ;
}

/// The records `rows` read as, in order, or the error of the first row
/// that does not read.
pub open spec fn decode_all<T: FromRow>(rows: Seq<Vec<SqlValue>>) -> Result<Seq<T>, DbError>
    decreases rows.len(),
{
    if rows.len() == 0 {
        Ok(Seq::empty())
    } else {
        match decode_all::<T>(rows.drop_last()) {
            Err(e) => Err(e),
            Ok(prefix) => match T::spec_from_row(rows.last()@) {
                Err(e) => Err(e),
                Ok(x) => Ok(prefix.push(x)),
            },
        }
    }
}

/// The record the first of `rows` reads as; no rows is an error.
pub open spec fn decode_first<T: FromRow>(rows: Seq<Vec<SqlValue>>) -> Result<T, DbError> {
    if rows.len() == 0 {
        Err(DbError::NoRows)
    } else {
        T::spec_from_row(rows[0]@)
    }
}

/// Reads every row as a record.
pub fn decode_rows<T: FromRow>(rows: &Vec<Vec<SqlValue>>) -> (r: Result<Vec<T>, DbError>)
    ensures
        match r {
            Ok(v) => decode_all::<T>(rows@) == Ok::<Seq<T>, DbError>(v@),
            Err(e) => decode_all::<T>(rows@) == Err::<Seq<T>, DbError>(e) && is_read_error(e),
        },
{
    let mut out: Vec<T> = Vec::new();
    let mut i: usize = 0;
    while i < rows.len()
        invariant
            i <= rows@.len(),
            decode_all::<T>(rows@.take(i as int)) == Ok::<Seq<T>, DbError>(out@),
        decreases rows@.len() - i,
    {
        assert(rows@.take(i + 1).drop_last() =~= rows@.take(i as int));
        match T::from_row(&rows[i]) {
            Ok(x) => {
                out.push(x);
            },
            Err(e) => {
                proof {
                    lemma_decode_all_prefix_error::<T>(rows@, (i + 1) as nat);
                }
                return Err(e);
            },
        }
        i = i + 1;
    }
    assert(rows@.take(rows@.len() as int) =~= rows@);
    Ok(out)
}

/// An error in a prefix of the rows is the error of all of them.
proof fn lemma_decode_all_prefix_error<T: FromRow>(rows: Seq<Vec<SqlValue>>, n: nat)
    requires
        n <= rows.len(),
        decode_all::<T>(rows.take(n as int)) is Err,
    ensures
        decode_all::<T>(rows) == decode_all::<T>(rows.take(n as int)),
    decreases rows.len() - n,
{
    if n < rows.len() {
        assert(rows.take((n + 1) as int).drop_last() =~= rows.take(n as int));
        lemma_decode_all_prefix_error::<T>(rows, n + 1);
    } else {
        assert(rows.take(n as int) =~= rows);
    }
}

/// Reads the first row as a record; no rows is an error.
pub fn decode_first_row<T: FromRow>(rows: &Vec<Vec<SqlValue>>) -> (r: Result<T, DbError>)
    ensures
        r == decode_first::<T>(rows@),
        r matches Err(e) ==> e is NoRows || is_read_error(e),
{
    if rows.len() == 0 {
        Err(DbError::NoRows)
    } else {
        T::from_row(&rows[0])
    }
}

/// A single integer column, as counts and sums are read.
impl FromRow for i64 {
    open spec fn spec_from_row(row: Seq<SqlValue>) -> Result<i64, DbError> {
        match row_error(row, seq![ColumnKind::Int]) {
            Some(e) => Err(e),
            None => Ok(int_of(row[0])),
        }
    }

    fn from_row(row: &Vec<SqlValue>) -> (r: Result<i64, DbError>) {
        let kinds = vec![ColumnKind::Int];
        assert(kinds@ =~= seq![ColumnKind::Int]);
        match check_row(row, &kinds) {
            Err(e) => Err(e),
            Ok(()) => {
                proof {
                    lemma_row_readable(row@, kinds@, 0);
                }
                Ok(int_at(row, 0))
            },
        }
    }
}

/// A single integer column within the range of `i32`.
impl FromRow for i32 {
    open spec fn spec_from_row(row: Seq<SqlValue>) -> Result<i32, DbError> {
        match row_error(row, seq![ColumnKind::Int32]) {
            Some(e) => Err(e),
            None => Ok(int32_of(row[0])),
        }
    }

    fn from_row(row: &Vec<SqlValue>) -> (r: Result<i32, DbError>) {
        let kinds = vec![ColumnKind::Int32];
        assert(kinds@ =~= seq![ColumnKind::Int32]);
        match check_row(row, &kinds) {
            Err(e) => Err(e),
            Ok(()) => {
                proof {
                    lemma_row_readable(row@, kinds@, 0);
                }
                Ok(int32_at(row, 0))
            },
        }
    }
}

/// A single text column.
impl FromRow for String {
    open spec fn spec_from_row(row: Seq<SqlValue>) -> Result<String, DbError> {
        match row_error(row, seq![ColumnKind::Text]) {
            Some(e) => Err(e),
            None => Ok(text_of(row[0])),
        }
    }

    fn from_row(row: &Vec<SqlValue>) -> (r: Result<String, DbError>) {
        let kinds = vec![ColumnKind::Text];
        assert(kinds@ =~= seq![ColumnKind::Text]);
        match check_row(row, &kinds) {
            Err(e) => Err(e),
            Ok(()) => {
                proof {
                    lemma_row_readable(row@, kinds@, 0);
                }
                Ok(text_at(row, 0))
            },
        }
    }
}

/// Two text columns.
impl FromRow for (String, String) {
    open spec fn spec_from_row(row: Seq<SqlValue>) -> Result<(String, String), DbError> {
        match row_error(row, seq![ColumnKind::Text, ColumnKind::Text]) {
            Some(e) => Err(e),
            None => Ok((text_of(row[0]), text_of(row[1]))),
        }
    }

    fn from_row(row: &Vec<SqlValue>) -> (r: Result<(String, String), DbError>) {
        let kinds = vec![ColumnKind::Text, ColumnKind::Text];
        assert(kinds@ =~= seq![ColumnKind::Text, ColumnKind::Text]);
        match check_row(row, &kinds) {
            Err(e) => Err(e),
            Ok(()) => {
                proof {
                    lemma_row_readable(row@, kinds@, 0);
                }
                Ok((text_at(row, 0), text_at(row, 1)))
            },
        }
    }
}

/// The record the first of `rows` reads as, `None` when there are no rows.
pub open spec fn decode_optional<T: FromRow>(rows: Seq<Vec<SqlValue>>) -> Result<Option<T>, DbError> {
    if rows.len() == 0 {
        Ok(None)
    } else {
        match T::spec_from_row(rows[0]@) {
            Ok(x) => Ok(Some(x)),
            Err(e) => Err(e),
        }
    }
}

/// Reads the first row as a record, `None` when there are no rows.
pub fn decode_optional_row<T: FromRow>(rows: &Vec<Vec<SqlValue>>) -> (r: Result<Option<T>, DbError>)
    ensures
        r == decode_optional::<T>(rows@),
        r matches Err(e) ==> is_read_error(e),
{
    if rows.len() == 0 {
        Ok(None)
    } else {
        match T::from_row(&rows[0]) {
            Ok(x) => Ok(Some(x)),
            Err(e) => Err(e),
        }
    }
}

/// What a query gives as a list: the records of the rows it stepped through,
/// unless one of them fails to read; then the engine error it stopped on, if
/// any. A row that fails to read stops the list before any later row.
pub open spec fn read_all<T: FromRow>(rows: Seq<Vec<SqlValue>>, error: Option<DbError>) -> Result<Seq<T>, DbError> {
    match decode_all::<T>(rows) {
        Err(e) => Err(e),
        Ok(v) => match error {
            Some(e) => Err(e),
            None => Ok(v),
        },
    }
}

/// What a query gives as one record: the first row it stepped through; with
/// no row, the engine error it stopped on, or `NoRows`.
pub open spec fn read_first<T: FromRow>(rows: Seq<Vec<SqlValue>>, error: Option<DbError>) -> Result<T, DbError> {
    if rows.len() > 0 {
        decode_first::<T>(rows)
    } else {
        match error {
            Some(e) => Err(e),
            None => Err(DbError::NoRows),
        }
    }
}

/// What a query gives as an optional record: the first row it stepped
/// through; with no row, the engine error it stopped on, or `None`.
pub open spec fn read_optional<T: FromRow>(rows: Seq<Vec<SqlValue>>, error: Option<DbError>) -> Result<Option<T>, DbError> {
    if rows.len() > 0 {
        decode_optional::<T>(rows)
    } else {
        match error {
            Some(e) => Err(e),
            None => Ok(None),
        }
    }
}

/// Reads the rows a query stepped through as records, in order.
pub fn read_rows<T: FromRow>(rows: &Vec<Vec<SqlValue>>, error: Option<DbError>) -> (r: Result<Vec<T>, DbError>)
    ensures
        match r {
            Ok(v) => read_all::<T>(rows@, error) == Ok::<Seq<T>, DbError>(v@),
            Err(e) => read_all::<T>(rows@, error) == Err::<Seq<T>, DbError>(e),
        },
        r matches Err(e) ==> is_read_error(e) || error == Some(e),
{
    let v = decode_rows::<T>(rows)?;
    match error {
        Some(e) => Err(e),
        None => Ok(v),
    }
}

/// Reads the first row a query stepped through as a record.
pub fn read_first_row<T: FromRow>(rows: &Vec<Vec<SqlValue>>, error: Option<DbError>) -> (r: Result<T, DbError>)
    ensures
        r == read_first::<T>(rows@, error),
        r matches Err(e) ==> e is NoRows || is_read_error(e) || error == Some(e),
{
    if rows.len() > 0 {
        decode_first_row::<T>(rows)
    } else {
        match error {
            Some(e) => Err(e),
            None => Err(DbError::NoRows),
        }
    }
}

/// Reads the first row a query stepped through as a record, `None` when it
/// stepped through none and stopped on no error.
pub fn read_optional_row<T: FromRow>(rows: &Vec<Vec<SqlValue>>, error: Option<DbError>) -> (r: Result<Option<T>, DbError>)
    ensures
        r == read_optional::<T>(rows@, error),
        r matches Err(e) ==> is_read_error(e) || error == Some(e),
{
    if rows.len() > 0 {
        decode_optional_row::<T>(rows)
    } else {
        match error {
            Some(e) => Err(e),
            None => Ok(None),
        }
    }
}

/// An entry row: id, channel id, channel name, model, display name, enabled, priority, sort index, weight, response time, cooldown, creation time.
pub open spec fn entry_kinds() -> Seq<ColumnKind> {
    seq![ColumnKind::Text, ColumnKind::Text, ColumnKind::OptText, ColumnKind::Text, ColumnKind::OptText, ColumnKind::Int32, ColumnKind::Int32, ColumnKind::Int32, ColumnKind::Int32, ColumnKind::OptText, ColumnKind::OptInt, ColumnKind::Text]
}

fn entry_kinds_vec() -> (r: Vec<ColumnKind>)
    ensures
        r@ == entry_kinds(),
{
    vec![ColumnKind::Text, ColumnKind::Text, ColumnKind::OptText, ColumnKind::Text, ColumnKind::OptText, ColumnKind::Int32, ColumnKind::Int32, ColumnKind::Int32, ColumnKind::Int32, ColumnKind::OptText, ColumnKind::OptInt, ColumnKind::Text]
}

impl FromRow for ApiEntry {
    open spec fn spec_from_row(row: Seq<SqlValue>) -> Result<ApiEntry, DbError> {
        match row_error(row, entry_kinds()) {
            Some(e) => Err(e),
            None => Ok(ApiEntry {
                id: text_of(row[0]),
                channel_id: text_of(row[1]),
                channel_name: opt_text_of(row[2]),
                model: text_of(row[3]),
                display_name: opt_text_of(row[4]),
                enabled: flag_of(row[5]),
                priority: int32_of(row[6]),
                sort_index: int32_of(row[7]),
                weight: int32_of(row[8]),
                response_ms: opt_text_of(row[9]),
                cooldown_until: opt_int_of(row[10]),
                created_at: text_of(row[11]),
            }),
        }
    }

    fn from_row(row: &Vec<SqlValue>) -> (r: Result<ApiEntry, DbError>) {
        let kinds = entry_kinds_vec();
        match check_row(row, &kinds) {
            Err(e) => Err(e),
            Ok(()) => {
                proof {
                    lemma_row_readable(row@, entry_kinds(), 0);
                }
                Ok(ApiEntry {
                    id: text_at(row, 0),
                    channel_id: text_at(row, 1),
                    channel_name: opt_text_at(row, 2),
                    model: text_at(row, 3),
                    display_name: opt_text_at(row, 4),
                    enabled: flag_at(row, 5),
                    priority: int32_at(row, 6),
                    sort_index: int32_at(row, 7),
                    weight: int32_at(row, 8),
                    response_ms: opt_text_at(row, 9),
                    cooldown_until: opt_int_at(row, 10),
                    created_at: text_at(row, 11),
                })
            },
        }
    }
}

/// A channel row: id, name, API type, base URL, API key, models, enabled, priority, weight, creation and update times.
pub open spec fn channel_kinds() -> Seq<ColumnKind> {
    seq![ColumnKind::Text, ColumnKind::Text, ColumnKind::Text, ColumnKind::Text, ColumnKind::Text, ColumnKind::Text, ColumnKind::Int32, ColumnKind::Int32, ColumnKind::Int32, ColumnKind::Text, ColumnKind::Text]
}

fn channel_kinds_vec() -> (r: Vec<ColumnKind>)
    ensures
        r@ == channel_kinds(),
{
    vec![ColumnKind::Text, ColumnKind::Text, ColumnKind::Text, ColumnKind::Text, ColumnKind::Text, ColumnKind::Text, ColumnKind::Int32, ColumnKind::Int32, ColumnKind::Int32, ColumnKind::Text, ColumnKind::Text]
}

impl FromRow for Channel {
    open spec fn spec_from_row(row: Seq<SqlValue>) -> Result<Channel, DbError> {
        match row_error(row, channel_kinds()) {
            Some(e) => Err(e),
            None => Ok(Channel {
                id: text_of(row[0]),
                name: text_of(row[1]),
                api_type: text_of(row[2]),
                base_url: text_of(row[3]),
                api_key: text_of(row[4]),
                models: text_of(row[5]),
                enabled: flag_of(row[6]),
                priority: int32_of(row[7]),
                weight: int32_of(row[8]),
                created_at: text_of(row[9]),
                updated_at: text_of(row[10]),
            }),
        }
    }

    fn from_row(row: &Vec<SqlValue>) -> (r: Result<Channel, DbError>) {
        let kinds = channel_kinds_vec();
        match check_row(row, &kinds) {
            Err(e) => Err(e),
            Ok(()) => {
                proof {
                    lemma_row_readable(row@, channel_kinds(), 0);
                }
                Ok(Channel {
                    id: text_at(row, 0),
                    name: text_at(row, 1),
                    api_type: text_at(row, 2),
                    base_url: text_at(row, 3),
                    api_key: text_at(row, 4),
                    models: text_at(row, 5),
                    enabled: flag_at(row, 6),
                    priority: int32_at(row, 7),
                    weight: int32_at(row, 8),
                    created_at: text_at(row, 9),
                    updated_at: text_at(row, 10),
                })
            },
        }
    }
}

/// A key row: id, name, key, usage count, usage limit, enabled, creation time.
pub open spec fn api_key_kinds() -> Seq<ColumnKind> {
    seq![ColumnKind::Text, ColumnKind::Text, ColumnKind::Text, ColumnKind::Int, ColumnKind::Int, ColumnKind::Int32, ColumnKind::Text]
}

fn api_key_kinds_vec() -> (r: Vec<ColumnKind>)
    ensures
        r@ == api_key_kinds(),
{
    vec![ColumnKind::Text, ColumnKind::Text, ColumnKind::Text, ColumnKind::Int, ColumnKind::Int, ColumnKind::Int32, ColumnKind::Text]
}

impl FromRow for ApiKey {
    open spec fn spec_from_row(row: Seq<SqlValue>) -> Result<ApiKey, DbError> {
        match row_error(row, api_key_kinds()) {
            Some(e) => Err(e),
            None => Ok(ApiKey {
                id: text_of(row[0]),
                name: text_of(row[1]),
                key: text_of(row[2]),
                usage_count: int_of(row[3]),
                usage_limit: int_of(row[4]),
                enabled: flag_of(row[5]),
                created_at: text_of(row[6]),
            }),
        }
    }

    fn from_row(row: &Vec<SqlValue>) -> (r: Result<ApiKey, DbError>) {
        let kinds = api_key_kinds_vec();
        match check_row(row, &kinds) {
            Err(e) => Err(e),
            Ok(()) => {
                proof {
                    lemma_row_readable(row@, api_key_kinds(), 0);
                }
                Ok(ApiKey {
                    id: text_at(row, 0),
                    name: text_at(row, 1),
                    key: text_at(row, 2),
                    usage_count: int_at(row, 3),
                    usage_limit: int_at(row, 4),
                    enabled: flag_at(row, 5),
                    created_at: text_at(row, 6),
                })
            },
        }
    }
}

/// A log row: id, channel id, channel name, model, key id, request type, status, latency, prompt and completion tokens, error, creation time.
pub open spec fn log_kinds() -> Seq<ColumnKind> {
    seq![ColumnKind::Text, ColumnKind::OptText, ColumnKind::OptText, ColumnKind::OptText, ColumnKind::OptText, ColumnKind::Text, ColumnKind::Int32, ColumnKind::Int, ColumnKind::Int, ColumnKind::Int, ColumnKind::OptText, ColumnKind::Text]
}

fn log_kinds_vec() -> (r: Vec<ColumnKind>)
    ensures
        r@ == log_kinds(),
{
    vec![ColumnKind::Text, ColumnKind::OptText, ColumnKind::OptText, ColumnKind::OptText, ColumnKind::OptText, ColumnKind::Text, ColumnKind::Int32, ColumnKind::Int, ColumnKind::Int, ColumnKind::Int, ColumnKind::OptText, ColumnKind::Text]
}

impl FromRow for RequestLog {
    open spec fn spec_from_row(row: Seq<SqlValue>) -> Result<RequestLog, DbError> {
        match row_error(row, log_kinds()) {
            Some(e) => Err(e),
            None => Ok(RequestLog {
                id: text_of(row[0]),
                channel_id: opt_text_of(row[1]),
                channel_name: opt_text_of(row[2]),
                model: opt_text_of(row[3]),
                api_key_id: opt_text_of(row[4]),
                request_type: text_of(row[5]),
                status_code: int32_of(row[6]),
                latency_ms: int_of(row[7]),
                prompt_tokens: int_of(row[8]),
                completion_tokens: int_of(row[9]),
                error: opt_text_of(row[10]),
                created_at: text_of(row[11]),
            }),
        }
    }

    fn from_row(row: &Vec<SqlValue>) -> (r: Result<RequestLog, DbError>) {
        let kinds = log_kinds_vec();
        match check_row(row, &kinds) {
            Err(e) => Err(e),
            Ok(()) => {
                proof {
                    lemma_row_readable(row@, log_kinds(), 0);
                }
                Ok(RequestLog {
                    id: text_at(row, 0),
                    channel_id: opt_text_at(row, 1),
                    channel_name: opt_text_at(row, 2),
                    model: opt_text_at(row, 3),
                    api_key_id: opt_text_at(row, 4),
                    request_type: text_at(row, 5),
                    status_code: int32_at(row, 6),
                    latency_ms: int_at(row, 7),
                    prompt_tokens: int_at(row, 8),
                    completion_tokens: int_at(row, 9),
                    error: opt_text_at(row, 10),
                    created_at: text_at(row, 11),
                })
            },
        }
    }
}

/// A ranking row: model, request count, tokens.
pub open spec fn ranking_kinds() -> Seq<ColumnKind> {
    seq![ColumnKind::Text, ColumnKind::Int, ColumnKind::Int]
}

fn ranking_kinds_vec() -> (r: Vec<ColumnKind>)
    ensures
        r@ == ranking_kinds(),
{
    vec![ColumnKind::Text, ColumnKind::Int, ColumnKind::Int]
}

impl FromRow for ModelRanking {
    open spec fn spec_from_row(row: Seq<SqlValue>) -> Result<ModelRanking, DbError> {
        match row_error(row, ranking_kinds()) {
            Some(e) => Err(e),
            None => Ok(ModelRanking {
                model: text_of(row[0]),
                count: int_of(row[1]),
                tokens: int_of(row[2]),
            }),
        }
    }

    fn from_row(row: &Vec<SqlValue>) -> (r: Result<ModelRanking, DbError>) {
        let kinds = ranking_kinds_vec();
        match check_row(row, &kinds) {
            Err(e) => Err(e),
            Ok(()) => {
                proof {
                    lemma_row_readable(row@, ranking_kinds(), 0);
                }
                Ok(ModelRanking {
                    model: text_at(row, 0),
                    count: int_at(row, 1),
                    tokens: int_at(row, 2),
                })
            },
        }
    }
}

/// A chart row: time bucket, model, request count.
pub open spec fn chart_point_kinds() -> Seq<ColumnKind> {
    seq![ColumnKind::Text, ColumnKind::Text, ColumnKind::Int]
}

fn chart_point_kinds_vec() -> (r: Vec<ColumnKind>)
    ensures
        r@ == chart_point_kinds(),
{
    vec![ColumnKind::Text, ColumnKind::Text, ColumnKind::Int]
}

impl FromRow for ChartDataPoint {
    open spec fn spec_from_row(row: Seq<SqlValue>) -> Result<ChartDataPoint, DbError> {
        match row_error(row, chart_point_kinds()) {
            Some(e) => Err(e),
            None => Ok(ChartDataPoint {
                time: text_of(row[0]),
                model: text_of(row[1]),
                value: int_of(row[2]),
            }),
        }
    }

    fn from_row(row: &Vec<SqlValue>) -> (r: Result<ChartDataPoint, DbError>) {
        let kinds = chart_point_kinds_vec();
        match check_row(row, &kinds) {
            Err(e) => Err(e),
            Ok(()) => {
                proof {
                    lemma_row_readable(row@, chart_point_kinds(), 0);
                }
                Ok(ChartDataPoint {
                    time: text_at(row, 0),
                    model: text_at(row, 1),
                    value: int_at(row, 2),
                })
            },
        }
    }
}

/// A settings row: breaker threshold, breaker reset time, retries, timeout, auto-select flag, monthly token limit, default model.
pub open spec fn settings_kinds() -> Seq<ColumnKind> {
    seq![ColumnKind::Int32, ColumnKind::Int32, ColumnKind::Int32, ColumnKind::Int32, ColumnKind::Int32, ColumnKind::Int, ColumnKind::Text]
}

fn settings_kinds_vec() -> (r: Vec<ColumnKind>)
    ensures
        r@ == settings_kinds(),
{
    vec![ColumnKind::Int32, ColumnKind::Int32, ColumnKind::Int32, ColumnKind::Int32, ColumnKind::Int32, ColumnKind::Int, ColumnKind::Text]
}

impl FromRow for Settings {
    open spec fn spec_from_row(row: Seq<SqlValue>) -> Result<Settings, DbError> {
        match row_error(row, settings_kinds()) {
            Some(e) => Err(e),
            None => Ok(Settings {
                circuit_breaker_threshold: int32_of(row[0]),
                circuit_breaker_reset_time: int32_of(row[1]),
                retry_times: int32_of(row[2]),
                timeout: int32_of(row[3]),
                auto_select_new_models: flag_of(row[4]),
                max_tokens_per_month: int_of(row[5]),
                default_model: text_of(row[6]),
            }),
        }
    }

    fn from_row(row: &Vec<SqlValue>) -> (r: Result<Settings, DbError>) {
        let kinds = settings_kinds_vec();
        match check_row(row, &kinds) {
            Err(e) => Err(e),
            Ok(()) => {
                proof {
                    lemma_row_readable(row@, settings_kinds(), 0);
                }
                Ok(Settings {
                    circuit_breaker_threshold: int32_at(row, 0),
                    circuit_breaker_reset_time: int32_at(row, 1),
                    retry_times: int32_at(row, 2),
                    timeout: int32_at(row, 3),
                    auto_select_new_models: flag_at(row, 4),
                    max_tokens_per_month: int_at(row, 5),
                    default_model: text_at(row, 6),
                })
            },
        }
    }
}

/// A channel read from a row has each field from its own column, in the
/// order `SQL_LIST_CHANNELS` and `SQL_GET_CHANNEL` select them: id, name,
/// api_type, base_url, api_key, models, enabled, priority, weight,
/// created_at, updated_at.
pub proof fn lemma_channel_columns(row: Seq<SqlValue>)
    requires
        Channel::spec_from_row(row) is Ok,
    ensures
        row.len() >= 11,
        row[0] == SqlValue::Text(Channel::spec_from_row(row)->Ok_0.id),
        row[1] == SqlValue::Text(Channel::spec_from_row(row)->Ok_0.name),
        row[2] == SqlValue::Text(Channel::spec_from_row(row)->Ok_0.api_type),
        row[3] == SqlValue::Text(Channel::spec_from_row(row)->Ok_0.base_url),
        row[4] == SqlValue::Text(Channel::spec_from_row(row)->Ok_0.api_key),
        row[5] == SqlValue::Text(Channel::spec_from_row(row)->Ok_0.models),
        row[6] matches SqlValue::Integer(n) && (n != 0) == Channel::spec_from_row(row)->Ok_0.enabled,
        row[7] == SqlValue::Integer(Channel::spec_from_row(row)->Ok_0.priority as i64),
        row[8] == SqlValue::Integer(Channel::spec_from_row(row)->Ok_0.weight as i64),
        row[9] == SqlValue::Text(Channel::spec_from_row(row)->Ok_0.created_at),
        row[10] == SqlValue::Text(Channel::spec_from_row(row)->Ok_0.updated_at),
{
    lemma_row_readable(row, channel_kinds(), 0);
    assert(column_error(row[0], channel_kinds()[0], 0) is None);
    assert(column_error(row[1], channel_kinds()[1], 1) is None);
    assert(column_error(row[2], channel_kinds()[2], 2) is None);
    assert(column_error(row[3], channel_kinds()[3], 3) is None);
    assert(column_error(row[4], channel_kinds()[4], 4) is None);
    assert(column_error(row[5], channel_kinds()[5], 5) is None);
    assert(column_error(row[6], channel_kinds()[6], 6) is None);
    assert(column_error(row[7], channel_kinds()[7], 7) is None);
    assert(column_error(row[8], channel_kinds()[8], 8) is None);
    assert(column_error(row[9], channel_kinds()[9], 9) is None);
    assert(column_error(row[10], channel_kinds()[10], 10) is None);
}

/// A client key read from a row has each field from its own column, in the
/// order `SQL_LIST_KEYS` and `SQL_FIND_KEY` select them: id, name, key,
/// usage_count, usage_limit, enabled, created_at.
pub proof fn lemma_api_key_columns(row: Seq<SqlValue>)
    requires
        ApiKey::spec_from_row(row) is Ok,
    ensures
        row.len() >= 7,
        row[0] == SqlValue::Text(ApiKey::spec_from_row(row)->Ok_0.id),
        row[1] == SqlValue::Text(ApiKey::spec_from_row(row)->Ok_0.name),
        row[2] == SqlValue::Text(ApiKey::spec_from_row(row)->Ok_0.key),
        row[3] == SqlValue::Integer(ApiKey::spec_from_row(row)->Ok_0.usage_count),
        row[4] == SqlValue::Integer(ApiKey::spec_from_row(row)->Ok_0.usage_limit),
        row[5] matches SqlValue::Integer(n) && (n != 0) == ApiKey::spec_from_row(row)->Ok_0.enabled,
        row[6] == SqlValue::Text(ApiKey::spec_from_row(row)->Ok_0.created_at),
{
    lemma_row_readable(row, api_key_kinds(), 0);
    assert(column_error(row[0], api_key_kinds()[0], 0) is None);
    assert(column_error(row[1], api_key_kinds()[1], 1) is None);
    assert(column_error(row[2], api_key_kinds()[2], 2) is None);
    assert(column_error(row[3], api_key_kinds()[3], 3) is None);
    assert(column_error(row[4], api_key_kinds()[4], 4) is None);
    assert(column_error(row[5], api_key_kinds()[5], 5) is None);
    assert(column_error(row[6], api_key_kinds()[6], 6) is None);
}

/// A request log read from a row has each field from its own column, in
/// the order `SQL_PAGE_LOGS` selects them: id, channel_id, channel_name,
/// model, api_key_id, request_type, status_code, latency_ms, prompt_tokens,
/// completion_tokens, error, created_at.
pub proof fn lemma_log_columns(row: Seq<SqlValue>)
    requires
        RequestLog::spec_from_row(row) is Ok,
    ensures
        row.len() >= 12,
        row[0] == SqlValue::Text(RequestLog::spec_from_row(row)->Ok_0.id),
        row[1] == match RequestLog::spec_from_row(row)->Ok_0.channel_id { Some(t) => SqlValue::Text(t), None => SqlValue::Null },
        row[2] == match RequestLog::spec_from_row(row)->Ok_0.channel_name { Some(t) => SqlValue::Text(t), None => SqlValue::Null },
        row[3] == match RequestLog::spec_from_row(row)->Ok_0.model { Some(t) => SqlValue::Text(t), None => SqlValue::Null },
        row[4] == match RequestLog::spec_from_row(row)->Ok_0.api_key_id { Some(t) => SqlValue::Text(t), None => SqlValue::Null },
        row[5] == SqlValue::Text(RequestLog::spec_from_row(row)->Ok_0.request_type),
        row[6] == SqlValue::Integer(RequestLog::spec_from_row(row)->Ok_0.status_code as i64),
        row[7] == SqlValue::Integer(RequestLog::spec_from_row(row)->Ok_0.latency_ms),
        row[8] == SqlValue::Integer(RequestLog::spec_from_row(row)->Ok_0.prompt_tokens),
        row[9] == SqlValue::Integer(RequestLog::spec_from_row(row)->Ok_0.completion_tokens),
        row[10] == match RequestLog::spec_from_row(row)->Ok_0.error { Some(t) => SqlValue::Text(t), None => SqlValue::Null },
        row[11] == SqlValue::Text(RequestLog::spec_from_row(row)->Ok_0.created_at),
{
    lemma_row_readable(row, log_kinds(), 0);
    assert(column_error(row[0], log_kinds()[0], 0) is None);
    assert(column_error(row[1], log_kinds()[1], 1) is None);
    assert(column_error(row[2], log_kinds()[2], 2) is None);
    assert(column_error(row[3], log_kinds()[3], 3) is None);
    assert(column_error(row[4], log_kinds()[4], 4) is None);
    assert(column_error(row[5], log_kinds()[5], 5) is None);
    assert(column_error(row[6], log_kinds()[6], 6) is None);
    assert(column_error(row[7], log_kinds()[7], 7) is None);
    assert(column_error(row[8], log_kinds()[8], 8) is None);
    assert(column_error(row[9], log_kinds()[9], 9) is None);
    assert(column_error(row[10], log_kinds()[10], 10) is None);
    assert(column_error(row[11], log_kinds()[11], 11) is None);
}

/// Settings read from a row have each field from its own column, in the
/// order `SQL_GET_SETTINGS` selects them: circuit_breaker_threshold,
/// circuit_breaker_reset_time, retry_times, timeout,
/// auto_select_new_models, max_tokens_per_month, default_model.
pub proof fn lemma_settings_columns(row: Seq<SqlValue>)
    requires
        Settings::spec_from_row(row) is Ok,
    ensures
        row.len() >= 7,
        row[0] == SqlValue::Integer(Settings::spec_from_row(row)->Ok_0.circuit_breaker_threshold as i64),
        row[1] == SqlValue::Integer(Settings::spec_from_row(row)->Ok_0.circuit_breaker_reset_time as i64),
        row[2] == SqlValue::Integer(Settings::spec_from_row(row)->Ok_0.retry_times as i64),
        row[3] == SqlValue::Integer(Settings::spec_from_row(row)->Ok_0.timeout as i64),
        row[4] matches SqlValue::Integer(n) && (n != 0) == Settings::spec_from_row(row)->Ok_0.auto_select_new_models,
        row[5] == SqlValue::Integer(Settings::spec_from_row(row)->Ok_0.max_tokens_per_month),
        row[6] == SqlValue::Text(Settings::spec_from_row(row)->Ok_0.default_model),
{
    lemma_row_readable(row, settings_kinds(), 0);
    assert(column_error(row[0], settings_kinds()[0], 0) is None);
    assert(column_error(row[1], settings_kinds()[1], 1) is None);
    assert(column_error(row[2], settings_kinds()[2], 2) is None);
    assert(column_error(row[3], settings_kinds()[3], 3) is None);
    assert(column_error(row[4], settings_kinds()[4], 4) is None);
    assert(column_error(row[5], settings_kinds()[5], 5) is None);
    assert(column_error(row[6], settings_kinds()[6], 6) is None);
}

/// A pool entry read from a row has each field from its own column, in the
/// order `SQL_LIST_ENTRIES` selects them: id, channel_id, the channel's name,
/// model, display_name, enabled, priority, sort_index, weight, response_ms,
/// cooldown_until, created_at.
pub proof fn lemma_entry_columns(row: Seq<SqlValue>)
    requires
        ApiEntry::spec_from_row(row) is Ok,
    ensures
        row.len() >= 12,
        row[0] == SqlValue::Text(ApiEntry::spec_from_row(row)->Ok_0.id),
        row[1] == SqlValue::Text(ApiEntry::spec_from_row(row)->Ok_0.channel_id),
        row[2] == match ApiEntry::spec_from_row(row)->Ok_0.channel_name { Some(t) => SqlValue::Text(t), None => SqlValue::Null },
        row[3] == SqlValue::Text(ApiEntry::spec_from_row(row)->Ok_0.model),
        row[4] == match ApiEntry::spec_from_row(row)->Ok_0.display_name { Some(t) => SqlValue::Text(t), None => SqlValue::Null },
        row[5] matches SqlValue::Integer(n) && (n != 0) == ApiEntry::spec_from_row(row)->Ok_0.enabled,
        row[6] == SqlValue::Integer(ApiEntry::spec_from_row(row)->Ok_0.priority as i64),
        row[7] == SqlValue::Integer(ApiEntry::spec_from_row(row)->Ok_0.sort_index as i64),
        row[8] == SqlValue::Integer(ApiEntry::spec_from_row(row)->Ok_0.weight as i64),
        row[9] == match ApiEntry::spec_from_row(row)->Ok_0.response_ms { Some(t) => SqlValue::Text(t), None => SqlValue::Null },
        row[10] == match ApiEntry::spec_from_row(row)->Ok_0.cooldown_until { Some(n) => SqlValue::Integer(n), None => SqlValue::Null },
        row[11] == SqlValue::Text(ApiEntry::spec_from_row(row)->Ok_0.created_at),
{
    lemma_row_readable(row, entry_kinds(), 0);
    assert(column_error(row[0], entry_kinds()[0], 0) is None);
    assert(column_error(row[1], entry_kinds()[1], 1) is None);
    assert(column_error(row[2], entry_kinds()[2], 2) is None);
    assert(column_error(row[3], entry_kinds()[3], 3) is None);
    assert(column_error(row[4], entry_kinds()[4], 4) is None);
    assert(column_error(row[5], entry_kinds()[5], 5) is None);
    assert(column_error(row[6], entry_kinds()[6], 6) is None);
    assert(column_error(row[7], entry_kinds()[7], 7) is None);
    assert(column_error(row[8], entry_kinds()[8], 8) is None);
    assert(column_error(row[9], entry_kinds()[9], 9) is None);
    assert(column_error(row[10], entry_kinds()[10], 10) is None);
    assert(column_error(row[11], entry_kinds()[11], 11) is None);
}

} // verus!
