//! The gateway's store: users, sessions, channels, pool entries, client
//! keys, request logs and settings, kept in one SQLite database.
//!
//! Each operation states which statements it hands to SQLite, with which
//! parameters and in which order, over [`Database::calls`], the record of
//! every call made and the answer it got. What an answer holds depends on
//! what is stored, so the operations state their result as a function of
//! the answers: the rows are read by [`crate::rows`], and the decisions
//! taken on them are made by the public functions of this module, whose
//! contracts are exact.

use vstd::prelude::*;
use crate::auth::{hash_password, hex_encode, hex_lower, spec_hash_password};
use crate::json::{json_of_strings, json_string_array};
use crate::models::{
    ApiEntry, ApiKey, Channel, ChartDataPoint, CreateApiKey, CreateChannel, CreateEntry,
    DashboardStats, LogStats, ModelRanking, RequestLog, Settings, UpdateChannel,
};
use crate::rows::{
    is_read_error, read_all, read_first, read_first_row, read_optional, read_optional_row, read_rows, FromRow,
};
use crate::writes::{
    api_key_params, channel_params, flag_param_of, log_params, new_channel, opt_text_param, settings_params,
    spec_api_key_params, spec_channel_params, spec_log_params, spec_new_channel, spec_settings_params,
};
use crate::sql::{params_view, ParamView, param_values, open_connection, run_batch, run_execute, run_query, DbError, SqlParam, SqlValue};

verus! {

/// `uuid::Uuid::new_v4().to_string()`: a random id in the hyphenated form,
/// which is 36 characters long.
#[verifier::external_body]
fn new_id() -> (r: String)
    ensures
        r@.len() == 36,
{
    uuid::Uuid::new_v4().to_string()
}

/// `chrono::Utc::now().to_rfc3339()`: the current time as RFC 3339 text.
/// Nothing is promised about the value.
#[verifier::external_body]
fn now_rfc3339() -> String {
    chrono::Utc::now().to_rfc3339()
}

/// `chrono::Utc::now().format("%Y-%m-%d")`: the current date in UTC.
/// Nothing is promised about the value.
#[verifier::external_body]
fn today_date() -> String {
    chrono::Utc::now().format("%Y-%m-%d").to_string()
}

/// `rand::random::<[u8; 24]>`: 24 bytes from the thread-local generator.
/// Nothing is promised about the value.
#[verifier::external_body]
fn random_24_bytes() -> [u8; 24] {
    rand::random::<[u8; 24]>()
}

/// Engine errors become [`DbError::Sqlite`].
fn engine<T>(r: Result<T, rusqlite::Error>) -> (out: Result<T, DbError>)
    ensures
        match r {
            Ok(x) => out == Ok::<T, DbError>(x),
            Err(e) => out == Err::<T, DbError>(DbError::Sqlite(e)),
        },
{
    match r {
        Ok(x) => Ok(x),
        Err(e) => Err(DbError::Sqlite(e)),
    }
}

fn text(s: &str) -> (r: SqlParam)
    ensures
        r matches SqlParam::Text(t) && t@ == s@,
{
    SqlParam::Text(String::from_str(s))
}

/// Whether a statement changed any row.
pub fn changed_any(count: usize) -> (r: bool)
    ensures
        r == (count > 0),
{
    count > 0
}

/// The sort index after the largest one (`-1` when the pool is empty); the
/// index after `i32::MAX` wraps to `i32::MIN`.
pub open spec fn spec_next_sort_index(max_index: i32) -> i32 {
    if max_index == i32::MAX {
        i32::MIN
    } else {
        (max_index + 1) as i32
    }
}

/// The sort index a new pool entry gets.
pub fn next_sort_index(max_index: i32) -> (r: i32)
    ensures
        r == spec_next_sort_index(max_index),
        max_index < i32::MAX ==> r == max_index + 1 && r > max_index,
{
    if max_index == i32::MAX {
        i32::MIN
    } else {
        max_index + 1
    }
}

/// The first of `entries` with id `id`.
pub fn find_entry(entries: Vec<ApiEntry>, id: &String) -> (r: Result<ApiEntry, DbError>)
    ensures
        match r {
            Ok(e) => exists|i: int|
                0 <= i < entries@.len() && entries@[i] == e && e.id@ == id@ && forall|j: int|
                    0 <= j < i ==> entries@[j].id@ != id@,
            Err(e) => e is EntryNotFound && forall|j: int|
                0 <= j < entries@.len() ==> entries@[j].id@ != id@,
        },
{
    let ghost all = entries@;
    let mut list = entries;
    let mut i: usize = 0;
    while i < list.len()
        invariant
            list@ == all,
            all == entries@,
            i <= all.len(),
            forall|j: int| 0 <= j < i ==> all[j].id@ != id@,
        decreases all.len() - i,
    {
        if list[i].id == *id {
            let e = list.swap_remove(i);
            assert(entries@[i as int] == e && e.id@ == id@);
            return Ok(e);
        }
        i = i + 1;
    }
    Err(DbError::EntryNotFound)
}

/// `key` unless it has a usage limit (a positive one) that its usage count
/// has reached.
pub open spec fn spec_usable_key(key: Option<ApiKey>) -> Option<ApiKey> {
    match key {
        Some(k) => if k.usage_limit > 0 && k.usage_count >= k.usage_limit {
            None
        } else {
            Some(k)
        },
        None => None,
    }
}

/// Drops a key whose usage limit is used up.
pub fn usable_key(key: Option<ApiKey>) -> (r: Option<ApiKey>)
    ensures
        r == spec_usable_key(key),
{
    match key {
        Some(k) => if k.usage_limit > 0 && k.usage_count >= k.usage_limit {
            None
        } else {
            Some(k)
        },
        None => None,
    }
}

/// The text of a client key made from 24 random bytes.
pub open spec fn spec_api_key_text(random: Seq<u8>) -> Seq<char> {
    "sk-"@ + hex_lower(random)
}

/// A client key: `sk-` followed by the hex text of 24 random bytes.
pub fn api_key_text(random: &[u8; 24]) -> (r: String)
    ensures
        r@ == spec_api_key_text(random@),
        r@.len() == 51,
{
    proof {
        reveal_strlit("sk-");
        crate::auth::lemma_hex_lower(random@);
    }
    let hex = hex_encode(random);
    let mut key = String::from_str("sk-");
    key.append(hex.as_str());
    key
}

/// The time format of a chart bucket: a day for `day`, an hour otherwise.
pub open spec fn spec_chart_format(granularity: Seq<char>) -> Seq<char> {
    if granularity == "day"@ {
        "%Y-%m-%d"@
    } else {
        "%Y-%m-%d %H:00"@
    }
}

/// The chart query: requests per model and time bucket, oldest bucket first.
pub open spec fn spec_chart_sql(granularity: Seq<char>) -> Seq<char> {
    "SELECT strftime('"@ + spec_chart_format(granularity)
        + "', created_at) as time, model, COUNT(*) as value FROM logs WHERE model IS NOT NULL GROUP BY time, model ORDER BY time ASC"@
}

/// Builds the chart query for a granularity.
pub fn chart_sql(granularity: &str) -> (r: String)
    ensures
        r@ == spec_chart_sql(granularity@),
{
    let day = String::from_str("day");
    let g = String::from_str(granularity);
    let format = if g == day {
        "%Y-%m-%d"
    } else {
        "%Y-%m-%d %H:00"
    };
    let mut sql = String::from_str("SELECT strftime('");
    sql.append(format);
    sql.append(
        "', created_at) as time, model, COUNT(*) as value FROM logs WHERE model IS NOT NULL GROUP BY time, model ORDER BY time ASC",
    );
    sql
}

/// The text a channel's model list is stored as: the JSON array of the
/// names (the empty text, should they not be writable as JSON).
pub fn models_json(models: &[String]) -> (r: String)
    ensures
        r@ == json_string_array(models@.map_values(|x: String| x@)),
{
    match json_of_strings(models) {
        Ok(s) => s,
        Err(_) => String::new(),
    }
}

/// The stored settings, or the defaults when they cannot be read.
pub fn settings_or_default(read: Result<Settings, DbError>) -> (r: Settings)
    ensures
        match read {
            Ok(s) => r == s,
            Err(_) => r.is_default(),
        },
{
    match read {
        Ok(s) => s,
        Err(_) => Settings::default(),
    }
}

/// A key is refused exactly when it has a positive usage limit that its
/// count has reached; a limit of 0 (or less) means no limit.
pub proof fn lemma_usage_limit(k: ApiKey)
    ensures
        spec_usable_key(Some(k)) is None <==> (k.usage_limit > 0 && k.usage_count >= k.usage_limit),
        k.usage_limit <= 0 ==> spec_usable_key(Some(k)) == Some(k),
        spec_usable_key(None) is None,
{
}

/// An error reported by the engine.
pub open spec fn engine_error(e: DbError) -> bool {
    e is Sqlite
}

/// An error of the engine or of reading a column.
pub open spec fn read_failure(e: DbError) -> bool {
    e is Sqlite || is_read_error(e)
}

/// An error of the engine, of reading a column, or a missing row.
pub open spec fn lookup_failure(e: DbError) -> bool {
    e is Sqlite || e is NoRows || is_read_error(e)
}

// ---------------------------------------------------------------
// Statements
// ---------------------------------------------------------------
pub const SQL_PRAGMAS: &'static str = "PRAGMA journal_mode=WAL; PRAGMA foreign_keys=ON;";

pub const SQL_CREATE_TABLES: &'static str = "
            CREATE TABLE IF NOT EXISTS users (
                id TEXT PRIMARY KEY,
                username TEXT UNIQUE NOT NULL,
                password_hash TEXT NOT NULL,
                created_at TEXT NOT NULL
            );
            CREATE TABLE IF NOT EXISTS sessions (
                token TEXT PRIMARY KEY,
                username TEXT NOT NULL,
                expires_at TEXT NOT NULL
            );
            CREATE TABLE IF NOT EXISTS channels (
                id TEXT PRIMARY KEY,
                name TEXT NOT NULL,
                api_type TEXT NOT NULL DEFAULT 'openai',
                base_url TEXT NOT NULL,
                api_key TEXT NOT NULL DEFAULT '',
                models TEXT NOT NULL DEFAULT '[]',
                enabled INTEGER NOT NULL DEFAULT 1,
                priority INTEGER NOT NULL DEFAULT 0,
                weight INTEGER NOT NULL DEFAULT 1,
                created_at TEXT NOT NULL,
                updated_at TEXT NOT NULL
            );
            CREATE TABLE IF NOT EXISTS entries (
                id TEXT PRIMARY KEY,
                channel_id TEXT NOT NULL,
                model TEXT NOT NULL,
                display_name TEXT,
                enabled INTEGER NOT NULL DEFAULT 1,
                priority INTEGER NOT NULL DEFAULT 0,
                sort_index INTEGER NOT NULL DEFAULT 0,
                weight INTEGER NOT NULL DEFAULT 1,
                response_ms TEXT,
                cooldown_until INTEGER,
                created_at TEXT NOT NULL,
                FOREIGN KEY (channel_id) REFERENCES channels(id)
            );
            CREATE TABLE IF NOT EXISTS api_keys (
                id TEXT PRIMARY KEY,
                name TEXT NOT NULL,
                key TEXT UNIQUE NOT NULL,
                usage_count INTEGER NOT NULL DEFAULT 0,
                usage_limit INTEGER NOT NULL DEFAULT 0,
                enabled INTEGER NOT NULL DEFAULT 1,
                created_at TEXT NOT NULL
            );
            CREATE TABLE IF NOT EXISTS logs (
                id TEXT PRIMARY KEY,
                channel_id TEXT,
                channel_name TEXT,
                model TEXT,
                api_key_id TEXT,
                request_type TEXT NOT NULL DEFAULT 'chat',
                status_code INTEGER NOT NULL,
                latency_ms INTEGER NOT NULL DEFAULT 0,
                prompt_tokens INTEGER NOT NULL DEFAULT 0,
                completion_tokens INTEGER NOT NULL DEFAULT 0,
                error TEXT,
                created_at TEXT NOT NULL
            );
            CREATE TABLE IF NOT EXISTS settings (
                id INTEGER PRIMARY KEY CHECK (id = 1),
                circuit_breaker_threshold INTEGER NOT NULL DEFAULT 5,
                circuit_breaker_reset_time INTEGER NOT NULL DEFAULT 300,
                retry_times INTEGER NOT NULL DEFAULT 3,
                timeout INTEGER NOT NULL DEFAULT 60000,
                auto_select_new_models INTEGER NOT NULL DEFAULT 1,
                max_tokens_per_month INTEGER NOT NULL DEFAULT 0,
                default_model TEXT NOT NULL DEFAULT ''
            );
        ";

pub const SQL_COUNT_USERS: &'static str = "SELECT COUNT(*) FROM users";

pub const SQL_INSERT_USER: &'static str = "INSERT INTO users (id, username, password_hash, created_at) VALUES (?1, ?2, ?3, ?4)";

pub const SQL_COUNT_SETTINGS: &'static str = "SELECT COUNT(*) FROM settings";

pub const SQL_INSERT_SETTINGS: &'static str = "INSERT INTO settings (id, circuit_breaker_threshold, circuit_breaker_reset_time, retry_times, timeout, auto_select_new_models, max_tokens_per_month, default_model) VALUES (1, 5, 300, 3, 60000, 1, 0, '')";

pub const SQL_LOGIN: &'static str = "SELECT id, username FROM users WHERE username = ?1 AND password_hash = ?2";

pub const SQL_COUNT_PASSWORD: &'static str = "SELECT COUNT(*) FROM users WHERE username = ?1 AND password_hash = ?2";

pub const SQL_SET_PASSWORD: &'static str = "UPDATE users SET password_hash = ?1 WHERE username = ?2";

pub const SQL_STORE_SESSION: &'static str = "INSERT OR REPLACE INTO sessions (token, username, expires_at) VALUES (?1, ?2, ?3)";

pub const SQL_VERIFY_SESSION: &'static str = "SELECT username FROM sessions WHERE token = ?1 AND expires_at > ?2";

pub const SQL_DELETE_SESSION: &'static str = "DELETE FROM sessions WHERE token = ?1";

pub const SQL_LIST_ENTRIES: &'static str = "SELECT e.id, e.channel_id, c.name, e.model, e.display_name, e.enabled, e.priority, e.sort_index, e.weight, e.response_ms, e.cooldown_until, e.created_at FROM entries e LEFT JOIN channels c ON e.channel_id = c.id ORDER BY e.sort_index ASC";

pub const SQL_MAX_SORT_INDEX: &'static str = "SELECT COALESCE(MAX(sort_index), -1) FROM entries";

pub const SQL_INSERT_ENTRY: &'static str = "INSERT INTO entries (id, channel_id, model, display_name, enabled, priority, sort_index, weight, response_ms, cooldown_until, created_at) VALUES (?1, ?2, ?3, ?4, 1, ?5, ?6, 1, NULL, NULL, ?7)";

pub const SQL_TOGGLE_ENTRY: &'static str = "UPDATE entries SET enabled = ?1 WHERE id = ?2";

pub const SQL_SORT_ENTRY: &'static str = "UPDATE entries SET sort_index = ?1 WHERE id = ?2";

pub const SQL_DELETE_ENTRY: &'static str = "DELETE FROM entries WHERE id = ?1";

pub const SQL_ENTRY_RESPONSE_MS: &'static str = "UPDATE entries SET response_ms = ?1 WHERE id = ?2";

pub const SQL_COUNT_LOGS: &'static str = "SELECT COUNT(*) FROM logs";

pub const SQL_COUNT_LOGS_SINCE: &'static str = "SELECT COUNT(*) FROM logs WHERE created_at >= ?1";

pub const SQL_SUM_PROMPT: &'static str = "SELECT COALESCE(SUM(prompt_tokens), 0) FROM logs";

pub const SQL_SUM_COMPLETION: &'static str = "SELECT COALESCE(SUM(completion_tokens), 0) FROM logs";

pub const SQL_SUM_PROMPT_SINCE: &'static str = "SELECT COALESCE(SUM(prompt_tokens), 0) FROM logs WHERE created_at >= ?1";

pub const SQL_SUM_COMPLETION_SINCE: &'static str = "SELECT COALESCE(SUM(completion_tokens), 0) FROM logs WHERE created_at >= ?1";

pub const SQL_MODEL_RANKING: &'static str = "SELECT model, COUNT(*) as count, SUM(prompt_tokens + completion_tokens) as tokens FROM logs WHERE model IS NOT NULL GROUP BY model ORDER BY count DESC LIMIT ?1";

pub const SQL_LIST_CHANNELS: &'static str = "SELECT id, name, api_type, base_url, api_key, models, enabled, priority, weight, created_at, updated_at FROM channels ORDER BY priority DESC, weight DESC";

pub const SQL_GET_CHANNEL: &'static str = "SELECT id, name, api_type, base_url, api_key, models, enabled, priority, weight, created_at, updated_at FROM channels WHERE id = ?1";

pub const SQL_INSERT_CHANNEL: &'static str = "INSERT INTO channels (id, name, api_type, base_url, api_key, models, enabled, priority, weight, created_at, updated_at) VALUES (?1, ?2, ?3, ?4, ?5, ?6, ?7, ?8, ?9, ?10, ?11)";

pub const SQL_UPDATE_CHANNEL: &'static str = "UPDATE channels SET name = COALESCE(?1, name), api_type = COALESCE(?2, api_type), base_url = COALESCE(?3, base_url), api_key = COALESCE(?4, api_key), models = COALESCE(?5, models), enabled = COALESCE(?6, enabled), priority = COALESCE(?7, priority), weight = COALESCE(?8, weight), updated_at = ?9 WHERE id = ?10";

pub const SQL_TOGGLE_CHANNEL: &'static str = "UPDATE channels SET enabled = ?1, updated_at = ?2 WHERE id = ?3";

pub const SQL_DELETE_CHANNEL: &'static str = "DELETE FROM channels WHERE id = ?1";

pub const SQL_CHANNEL_MODELS: &'static str = "UPDATE channels SET models = ?1, updated_at = ?2 WHERE id = ?3";

pub const SQL_LIST_KEYS: &'static str = "SELECT id, name, key, usage_count, usage_limit, enabled, created_at FROM api_keys ORDER BY created_at DESC";

pub const SQL_INSERT_KEY: &'static str = "INSERT INTO api_keys (id, name, key, usage_count, usage_limit, enabled, created_at) VALUES (?1, ?2, ?3, ?4, ?5, ?6, ?7)";

pub const SQL_FIND_KEY: &'static str = "SELECT id, name, key, usage_count, usage_limit, enabled, created_at FROM api_keys WHERE key = ?1 AND enabled = 1";

pub const SQL_USE_KEY: &'static str = "UPDATE api_keys SET usage_count = usage_count + 1 WHERE id = ?1";

pub const SQL_TOGGLE_KEY: &'static str = "UPDATE api_keys SET enabled = ?1 WHERE id = ?2";

pub const SQL_DELETE_KEY: &'static str = "DELETE FROM api_keys WHERE id = ?1";

pub const SQL_INSERT_LOG: &'static str = "INSERT INTO logs (id, channel_id, channel_name, model, api_key_id, request_type, status_code, latency_ms, prompt_tokens, completion_tokens, error, created_at) VALUES (?1, ?2, ?3, ?4, ?5, ?6, ?7, ?8, ?9, ?10, ?11, ?12)";

pub const SQL_PAGE_LOGS: &'static str = "SELECT id, channel_id, channel_name, model, api_key_id, request_type, status_code, latency_ms, prompt_tokens, completion_tokens, error, created_at FROM logs ORDER BY created_at DESC LIMIT ?1 OFFSET ?2";

pub const SQL_COUNT_SUCCESS: &'static str = "SELECT COUNT(*) FROM logs WHERE status_code >= 200 AND status_code < 300";

pub const SQL_COUNT_ERRORS: &'static str = "SELECT COUNT(*) FROM logs WHERE status_code >= 400";

pub const SQL_CLEAR_LOGS: &'static str = "DELETE FROM logs";

pub const SQL_GET_SETTINGS: &'static str = "SELECT circuit_breaker_threshold, circuit_breaker_reset_time, retry_times, timeout, auto_select_new_models, max_tokens_per_month, default_model FROM settings WHERE id = 1";

pub const SQL_UPDATE_SETTINGS: &'static str = "UPDATE settings SET circuit_breaker_threshold = ?1, circuit_breaker_reset_time = ?2, retry_times = ?3, timeout = ?4, auto_select_new_models = ?5, max_tokens_per_month = ?6, default_model = ?7 WHERE id = 1";

// ---------------------------------------------------------------
// What is handed to the engine and what comes back
// ---------------------------------------------------------------
/// One call made to the engine: the statement, its parameters and what the
/// engine answered.
pub enum EngineCall {
    /// Opening the database file at `path`.
    Open { path: Seq<char>, answer: Result<(), DbError> },
    /// A batch of statements.
    Batch { sql: Seq<char>, answer: Result<(), DbError> },
    /// A statement that changes rows; the answer is the number changed.
    Execute { sql: Seq<char>, params: Seq<ParamView>, answer: Result<usize, DbError> },
    /// A query; the answer is the rows it stepped through and the error it
    /// stopped on, if any.
    Query { sql: Seq<char>, params: Seq<ParamView>, answer: (Seq<Vec<SqlValue>>, Option<DbError>) },
}

/// `c` runs the batch `sql`.
pub open spec fn is_batch(c: EngineCall, sql: Seq<char>) -> bool {
    c matches EngineCall::Batch { sql: s, .. } && s == sql
}

/// `c` runs the statement `sql` with `params`.
pub open spec fn is_execute(c: EngineCall, sql: Seq<char>, params: Seq<ParamView>) -> bool {
    c matches EngineCall::Execute { sql: s, params: p, .. } && s == sql && p =~= params
}

/// `c` runs the query `sql` with `params`.
pub open spec fn is_query(c: EngineCall, sql: Seq<char>, params: Seq<ParamView>) -> bool {
    c matches EngineCall::Query { sql: s, params: p, .. } && s == sql && p =~= params
}

pub open spec fn batch_answer(c: EngineCall) -> Result<(), DbError> {
    c->Batch_answer
}

pub open spec fn exec_answer(c: EngineCall) -> Result<usize, DbError> {
    c->Execute_answer
}

pub open spec fn query_answer(c: EngineCall) -> (Seq<Vec<SqlValue>>, Option<DbError>) {
    c->Query_answer
}

/// `Ok(())` for a statement that ran.
pub open spec fn done_of(a: Result<usize, DbError>) -> Result<(), DbError> {
    match a {
        Ok(_) => Ok(()),
        Err(e) => Err(e),
    }
}

/// Whether a statement that ran changed any row.
pub open spec fn changed_of(a: Result<usize, DbError>) -> Result<bool, DbError> {
    match a {
        Ok(n) => Ok(n > 0),
        Err(e) => Err(e),
    }
}

/// The records a query's answer reads as.
pub open spec fn list_of<T: FromRow>(a: (Seq<Vec<SqlValue>>, Option<DbError>)) -> Result<Seq<T>, DbError> {
    read_all::<T>(a.0, a.1)
}

/// The record a query's first row reads as, `None` for no rows.
pub open spec fn optional_of<T: FromRow>(a: (Seq<Vec<SqlValue>>, Option<DbError>)) -> Result<Option<T>, DbError> {
    read_optional::<T>(a.0, a.1)
}

/// The record a query's first row reads as; no rows is an error.
pub open spec fn first_of<T: FromRow>(a: (Seq<Vec<SqlValue>>, Option<DbError>)) -> Result<T, DbError> {
    read_first::<T>(a.0, a.1)
}

/// A list result that is `s`.
pub open spec fn same_list<T>(r: Result<Vec<T>, DbError>, s: Result<Seq<T>, DbError>) -> bool {
    match r {
        Ok(v) => s == Ok::<Seq<T>, DbError>(v@),
        Err(e) => s == Err::<Seq<T>, DbError>(e),
    }
}

/// `new` is `old` followed by more calls.
pub open spec fn extends(old: Seq<EngineCall>, new: Seq<EngineCall>) -> bool {
    old.len() <= new.len() && new.subrange(0, old.len() as int) =~= old
}

/// The calls `new` has after `old`.
pub open spec fn new_calls(old: Seq<EngineCall>, new: Seq<EngineCall>) -> Seq<EngineCall> {
    new.subrange(old.len() as int, new.len() as int)
}

/// `new` is `old` and one more call that runs `sql` with `params`.
pub open spec fn one_execute(old: Seq<EngineCall>, new: Seq<EngineCall>, sql: Seq<char>, params: Seq<ParamView>) -> bool {
    new.len() == old.len() + 1 && new.drop_last() =~= old && is_execute(new.last(), sql, params)
}

/// `new` is `old` and one more query of `sql` with `params`.
pub open spec fn one_query(old: Seq<EngineCall>, new: Seq<EngineCall>, sql: Seq<char>, params: Seq<ParamView>) -> bool {
    new.len() == old.len() + 1 && new.drop_last() =~= old && is_query(new.last(), sql, params)
}

/// The parameter of a flag: 1 or 0.
pub open spec fn flag_view(b: bool) -> ParamView {
    ParamView::Integer(if b { 1 } else { 0 })
}

/// Text, or null for `None`.
pub open spec fn opt_text_view(s: Option<String>) -> ParamView {
    match s {
        Some(t) => ParamView::Text(t@),
        None => ParamView::Null,
    }
}

/// An integer, or null for `None`.
pub open spec fn opt_int_view(v: Option<i64>) -> ParamView {
    match v {
        Some(n) => ParamView::Integer(n),
        None => ParamView::Null,
    }
}

/// The parameters of the channel update: each given field or null (which
/// keeps the stored value), the update time and the id.
pub open spec fn spec_channel_update_params(req: UpdateChannel, now: Seq<char>, id: Seq<char>) -> Seq<ParamView> {
    seq![
        opt_text_view(req.name),
        opt_text_view(req.api_type),
        opt_text_view(req.base_url),
        opt_text_view(req.api_key),
        opt_text_view(req.models),
        opt_int_view(match req.enabled { Some(b) => Some(if b { 1i64 } else { 0i64 }), None => None }),
        opt_int_view(match req.priority { Some(p) => Some(p as i64), None => None }),
        opt_int_view(match req.weight { Some(w) => Some(w as i64), None => None }),
        ParamView::Text(now),
        ParamView::Text(id),
    ]
}

/// The text a channel's model list is stored as: the JSON array of the names.
pub open spec fn stored_models(models: Seq<String>) -> Seq<char> {
    json_string_array(models.map_values(|x: String| x@))
}

/// The parameters of a model list update: the stored list, the update
/// time and the channel's id.
pub open spec fn models_update_params(models: Seq<String>, now: Seq<char>, id: Seq<char>) -> Seq<ParamView> {
    seq![ParamView::Text(stored_models(models)), ParamView::Text(now), ParamView::Text(id)]
}

/// Builds the parameters of the channel update.
pub fn channel_update_params(req: &UpdateChannel, now: String, id: &str) -> (r: Vec<SqlParam>)
    ensures
        params_view(r@) == spec_channel_update_params(*req, now@, id@),
{
    let r = vec![
        opt_text_param(&req.name),
        opt_text_param(&req.api_type),
        opt_text_param(&req.base_url),
        opt_text_param(&req.api_key),
        opt_text_param(&req.models),
        match req.enabled {
            Some(b) => flag_param_of(b),
            None => SqlParam::Null,
        },
        match req.priority {
            Some(p) => SqlParam::Integer(p as i64),
            None => SqlParam::Null,
        },
        match req.weight {
            Some(w) => SqlParam::Integer(w as i64),
            None => SqlParam::Null,
        },
        SqlParam::Text(now),
        text(id),
    ];
    assert(params_view(r@) =~= spec_channel_update_params(*req, now@, id@));
    r
}

/// The parameters a new pool entry is inserted with.
pub open spec fn spec_entry_insert_params(id: Seq<char>, req: CreateEntry, max_index: i32, now: Seq<char>) -> Seq<ParamView> {
    seq![
        ParamView::Text(id),
        ParamView::Text(req.channel_id@),
        ParamView::Text(req.model@),
        opt_text_view(req.display_name),
        ParamView::Integer(match req.priority { Some(p) => p as i64, None => 0 }),
        ParamView::Integer(spec_next_sort_index(max_index) as i64),
        ParamView::Text(now),
    ]
}

/// The dashboard totals from the answers of its six queries, in the order
/// all requests, today's requests, all prompt tokens, all completion tokens,
/// today's prompt tokens, today's completion tokens.
pub fn dashboard_from_counts(counts: &[i64; 6]) -> (r: DashboardStats)
    ensures
        r.total_requests == counts@[0],
        r.today_requests == counts@[1],
        r.total_prompt_tokens == counts@[2],
        r.total_completion_tokens == counts@[3],
        r.today_prompt_tokens == counts@[4],
        r.today_completion_tokens == counts@[5],
{
    DashboardStats {
        total_requests: counts[0],
        today_requests: counts[1],
        total_prompt_tokens: counts[2],
        total_completion_tokens: counts[3],
        today_prompt_tokens: counts[4],
        today_completion_tokens: counts[5],
    }
}

/// The log counts from the answers of its four queries, in the order all,
/// successful, failed, today's.
pub fn log_stats_from_counts(counts: &[i64; 4]) -> (r: LogStats)
    ensures
        r.total == counts@[0],
        r.success == counts@[1],
        r.errors == counts@[2],
        r.today == counts@[3],
{
    LogStats { total: counts[0], success: counts[1], errors: counts[2], today: counts[3] }
}

/// The seeding of a fresh store ran: the users are counted and, when there
/// are none, `root` is added with the hash of `admin`; then the settings
/// rows are counted and, when there are none, the defaults are added.
pub open spec fn seeded(nc: Seq<EngineCall>) -> bool {
    &&& nc.len() >= 2
    &&& is_query(nc[0], SQL_COUNT_USERS@, seq![])
    &&& first_of::<i64>(query_answer(nc[0])) is Ok
    &&& {
        let users = first_of::<i64>(query_answer(nc[0]))->Ok_0;
        let k: int = if users == 0 { 2 } else { 1 };
        &&& (users == 0 ==> seeds_root(nc[1]))
        &&& nc.len() > k
        &&& is_query(nc[k], SQL_COUNT_SETTINGS@, seq![])
        &&& first_of::<i64>(query_answer(nc[k])) is Ok
        &&& {
            let settings = first_of::<i64>(query_answer(nc[k]))->Ok_0;
            &&& nc.len() == k + 1 + (if settings == 0 { 1int } else { 0int })
            &&& (settings == 0 ==> is_execute(nc[k + 1], SQL_INSERT_SETTINGS@, seq![]) && exec_answer(nc[k + 1]) is Ok)
        }
    }
}

/// `c` added the user `root` with the hash of the password `admin`, a
/// 36-character id and a creation time.
pub open spec fn seeds_root(c: EngineCall) -> bool {
    exists|id: Seq<char>, now: Seq<char>|
        id.len() == 36 && is_execute(
            c,
            SQL_INSERT_USER@,
            seq![
                ParamView::Text(id),
                ParamView::Text("root"@),
                ParamView::Text(spec_hash_password("admin"@)),
                ParamView::Text(now),
            ],
        ) && exec_answer(c) is Ok
}

/// The password change ran: the user with the old password is counted and,
/// when there is one, its password is set to the hash of the new one.
pub open spec fn changes_password(
    nc: Seq<EngineCall>,
    username: Seq<char>,
    old_password: Seq<char>,
    new_password: Seq<char>,
    r: Result<bool, DbError>,
) -> bool {
    &&& nc.len() >= 1
    &&& is_query(
        nc[0],
        SQL_COUNT_PASSWORD@,
        seq![ParamView::Text(username), ParamView::Text(spec_hash_password(old_password))],
    )
    &&& match first_of::<i64>(query_answer(nc[0])) {
        Err(e) => nc.len() == 1 && r == Err::<bool, DbError>(e),
        Ok(n) => if n == 0 {
            nc.len() == 1 && r == Ok::<bool, DbError>(false)
        } else {
            &&& nc.len() == 2
            &&& is_execute(
                nc[1],
                SQL_SET_PASSWORD@,
                seq![ParamView::Text(spec_hash_password(new_password)), ParamView::Text(username)],
            )
            &&& r == match exec_answer(nc[1]) {
                Ok(_) => Ok::<bool, DbError>(true),
                Err(e) => Err(e),
            }
        },
    }
}

/// The entry creation ran: the largest sort index is read, the entry is
/// inserted with a fresh 36-character id after it, and the entry with that
/// id is found among all entries.
pub open spec fn creates_entry(nc: Seq<EngineCall>, req: CreateEntry, r: Result<ApiEntry, DbError>) -> bool {
    &&& nc.len() >= 1
    &&& is_query(nc[0], SQL_MAX_SORT_INDEX@, seq![])
    &&& match first_of::<i32>(query_answer(nc[0])) {
        Err(e) => nc.len() == 1 && r == Err::<ApiEntry, DbError>(e),
        Ok(m) => exists|id: Seq<char>, now: Seq<char>|
            #![trigger spec_entry_insert_params(id, req, m, now)]
            {
                &&& id.len() == 36
                &&& nc.len() >= 2
                &&& is_execute(nc[1], SQL_INSERT_ENTRY@, spec_entry_insert_params(id, req, m, now))
                &&& match exec_answer(nc[1]) {
                    Err(e) => nc.len() == 2 && r == Err::<ApiEntry, DbError>(e),
                    Ok(_) => {
                        &&& nc.len() == 3
                        &&& is_query(nc[2], SQL_LIST_ENTRIES@, seq![])
                        &&& match list_of::<ApiEntry>(query_answer(nc[2])) {
                            Err(e) => r == Err::<ApiEntry, DbError>(e),
                            Ok(list) => match r {
                                Ok(e) => exists|i: int|
                                    0 <= i < list.len() && list[i] == e && e.id@ == id && forall|j: int|
                                        0 <= j < i ==> list[j].id@ != id,
                                Err(e) => e is EntryNotFound && forall|j: int|
                                    0 <= j < list.len() ==> list[j].id@ != id,
                            },
                        }
                    },
                }
            },
    }
}

/// The reordering ran: entry `ids[j]` is given sort index `j`, in order,
/// until a statement fails.
pub open spec fn reorders(nc: Seq<EngineCall>, ids: Seq<String>, r: Result<(), DbError>) -> bool {
    &&& nc.len() <= ids.len()
    &&& forall|j: int|
        0 <= j < nc.len() ==> is_execute(
            #[trigger] nc[j],
            SQL_SORT_ENTRY@,
            seq![ParamView::Integer((j as i32) as i64), ParamView::Text(ids[j]@)],
        )
    &&& forall|j: int| 0 <= j < nc.len() - 1 ==> exec_answer(#[trigger] nc[j]) is Ok
    &&& match r {
        Ok(()) => nc.len() == ids.len() && forall|j: int| 0 <= j < nc.len() ==> exec_answer(#[trigger] nc[j]) is Ok,
        Err(e) => nc.len() >= 1 && exec_answer(nc.last()) == Err::<usize, DbError>(e),
    }
}


/// The dashboard's queries, given the start of today: all requests,
/// today's requests, all prompt tokens, all completion tokens, today's
/// prompt tokens and today's completion tokens, in this order.
pub open spec fn dashboard_queries(nc: Seq<EngineCall>, today: Seq<char>) -> bool {
    &&& nc.len() == 6
    &&& is_query(nc[0], SQL_COUNT_LOGS@, seq![])
    &&& is_query(nc[1], SQL_COUNT_LOGS_SINCE@, seq![ParamView::Text(today)])
    &&& is_query(nc[2], SQL_SUM_PROMPT@, seq![])
    &&& is_query(nc[3], SQL_SUM_COMPLETION@, seq![])
    &&& is_query(nc[4], SQL_SUM_PROMPT_SINCE@, seq![ParamView::Text(today)])
    &&& is_query(nc[5], SQL_SUM_COMPLETION_SINCE@, seq![ParamView::Text(today)])
}

/// The dashboard ran its queries in order and each total is the answer of
/// its query; on an error, the last query made gave it.
pub open spec fn dashboard_answers(nc: Seq<EngineCall>, r: Result<DashboardStats, DbError>) -> bool {
    match r {
        Ok(s) => {
            &&& exists|today: Seq<char>| #[trigger] dashboard_queries(nc, today)
            &&& first_of::<i64>(query_answer(nc[0])) == Ok::<i64, DbError>(s.total_requests)
            &&& first_of::<i64>(query_answer(nc[1])) == Ok::<i64, DbError>(s.today_requests)
            &&& first_of::<i64>(query_answer(nc[2])) == Ok::<i64, DbError>(s.total_prompt_tokens)
            &&& first_of::<i64>(query_answer(nc[3])) == Ok::<i64, DbError>(s.total_completion_tokens)
            &&& first_of::<i64>(query_answer(nc[4])) == Ok::<i64, DbError>(s.today_prompt_tokens)
            &&& first_of::<i64>(query_answer(nc[5])) == Ok::<i64, DbError>(s.today_completion_tokens)
        },
        Err(e) => {
            &&& 1 <= nc.len() <= 6
            &&& is_query(nc[0], SQL_COUNT_LOGS@, seq![])
            &&& first_of::<i64>(query_answer(nc.last())) == Err::<i64, DbError>(e)
        },
    }
}

/// The log count queries ran: all, successful, failed and today's
/// requests, in this order, and each count is the answer of its query.
pub open spec fn log_stats_answers(nc: Seq<EngineCall>, r: Result<LogStats, DbError>) -> bool {
    match r {
        Ok(s) => {
            &&& nc.len() == 4
            &&& is_query(nc[0], SQL_COUNT_LOGS@, seq![])
            &&& is_query(nc[1], SQL_COUNT_SUCCESS@, seq![])
            &&& is_query(nc[2], SQL_COUNT_ERRORS@, seq![])
            &&& exists|today: Seq<char>| #[trigger] is_query(nc[3], SQL_COUNT_LOGS_SINCE@, seq![ParamView::Text(today)])
            &&& first_of::<i64>(query_answer(nc[0])) == Ok::<i64, DbError>(s.total)
            &&& first_of::<i64>(query_answer(nc[1])) == Ok::<i64, DbError>(s.success)
            &&& first_of::<i64>(query_answer(nc[2])) == Ok::<i64, DbError>(s.errors)
            &&& first_of::<i64>(query_answer(nc[3])) == Ok::<i64, DbError>(s.today)
        },
        Err(e) => {
            &&& 1 <= nc.len() <= 4
            &&& is_query(nc[0], SQL_COUNT_LOGS@, seq![])
            &&& first_of::<i64>(query_answer(nc.last())) == Err::<i64, DbError>(e)
        },
    }
}

/// The log page ran: all logs are counted, then the page of `limit` logs
/// after the first `offset` is read.
pub open spec fn pages_logs(
    nc: Seq<EngineCall>,
    limit: i64,
    offset: i64,
    r: Result<(Vec<RequestLog>, i64), DbError>,
) -> bool {
    &&& nc.len() >= 1
    &&& is_query(nc[0], SQL_COUNT_LOGS@, seq![])
    &&& match first_of::<i64>(query_answer(nc[0])) {
        Err(e) => nc.len() == 1 && r == Err::<(Vec<RequestLog>, i64), DbError>(e),
        Ok(total) => {
            &&& nc.len() == 2
            &&& is_query(nc[1], SQL_PAGE_LOGS@, seq![ParamView::Integer(limit), ParamView::Integer(offset)])
            &&& match r {
                Ok((logs, t)) => t == total && list_of::<RequestLog>(query_answer(nc[1])) == Ok::<
                    Seq<RequestLog>,
                    DbError,
                >(logs@),
                Err(e) => list_of::<RequestLog>(query_answer(nc[1])) == Err::<Seq<RequestLog>, DbError>(e),
            }
        },
    }
}

/// The channel creation ran: the channel the request describes, with a
/// fresh 36-character id, is inserted and then read back by its id; a
/// channel not read back is `NoRows`.
pub open spec fn creates_channel(nc: Seq<EngineCall>, req: CreateChannel, r: Result<Channel, DbError>) -> bool {
    exists|id: String, now: String|
        #![trigger spec_new_channel(req, id, now)]
        {
            &&& id@.len() == 36
            &&& nc.len() >= 1
            &&& is_execute(nc[0], SQL_INSERT_CHANNEL@, params_view(spec_channel_params(spec_new_channel(req, id, now))))
            &&& match exec_answer(nc[0]) {
                Err(e) => nc.len() == 1 && r == Err::<Channel, DbError>(e),
                Ok(_) => {
                    &&& nc.len() == 2
                    &&& is_query(nc[1], SQL_GET_CHANNEL@, seq![ParamView::Text(id@)])
                    &&& r == match optional_of::<Channel>(query_answer(nc[1])) {
                        Ok(Some(c)) => Ok::<Channel, DbError>(c),
                        Ok(None) => Err(DbError::NoRows),
                        Err(e) => Err(e),
                    }
                },
            }
        }
}

/// The channel update ran: the channel is looked up by its id; when it
/// exists, the given fields and the update time are written and the
/// channel is read back.
pub open spec fn updates_channel(
    nc: Seq<EngineCall>,
    id: Seq<char>,
    req: UpdateChannel,
    r: Result<Option<Channel>, DbError>,
) -> bool {
    &&& nc.len() >= 1
    &&& is_query(nc[0], SQL_GET_CHANNEL@, seq![ParamView::Text(id)])
    &&& match optional_of::<Channel>(query_answer(nc[0])) {
        Err(e) => nc.len() == 1 && r == Err::<Option<Channel>, DbError>(e),
        Ok(None) => nc.len() == 1 && r == Ok::<Option<Channel>, DbError>(None),
        Ok(Some(_)) => exists|now: Seq<char>|
            #![trigger spec_channel_update_params(req, now, id)]
            {
                &&& nc.len() >= 2
                &&& is_execute(nc[1], SQL_UPDATE_CHANNEL@, spec_channel_update_params(req, now, id))
                &&& match exec_answer(nc[1]) {
                    Err(e) => nc.len() == 2 && r == Err::<Option<Channel>, DbError>(e),
                    Ok(_) => {
                        &&& nc.len() == 3
                        &&& is_query(nc[2], SQL_GET_CHANNEL@, seq![ParamView::Text(id)])
                        &&& r == optional_of::<Channel>(query_answer(nc[2]))
                    },
                }
            },
    }
}

/// A freshly issued client key for `req`: a 36-character id, the requested
/// name and limit, a key text of `sk-` and 48 hex digits made from 24 random
/// bytes, no uses yet, enabled.
pub open spec fn issued_key(k: ApiKey, req: CreateApiKey) -> bool {
    &&& k.id@.len() == 36
    &&& k.name == req.name
    &&& exists|random: Seq<u8>| random.len() == 24 && k.key@ == spec_api_key_text(random)
    &&& k.key@.len() == 51
    &&& k.usage_count == 0
    &&& k.usage_limit == req.usage_limit
    &&& k.enabled
}

/// `c` gave the error `e`: the engine's own error, or, for a count query,
/// the error of reading its first row.
pub open spec fn gave_error(c: EngineCall, e: DbError) -> bool {
    match c {
        EngineCall::Open { answer, .. } => answer == Err::<(), DbError>(e),
        EngineCall::Batch { answer, .. } => answer == Err::<(), DbError>(e),
        EngineCall::Execute { answer, .. } => answer == Err::<usize, DbError>(e),
        EngineCall::Query { answer, .. } => first_of::<i64>(answer) == Err::<i64, DbError>(e),
    }
}

/// The seeding of a fresh store ran as [`seeded`] says, or it stopped at
/// the first call that failed, with that call's error.
pub open spec fn seeds(nc: Seq<EngineCall>, r: Result<(), DbError>) -> bool {
    match r {
        Ok(()) => seeded(nc),
        Err(e) => {
            &&& nc.len() >= 1
            &&& is_query(nc[0], SQL_COUNT_USERS@, seq![])
            &&& gave_error(nc.last(), e)
        },
    }
}

/// The set-up of an open store ran: the pragmas, then the tables, then the
/// seeding, each only after the one before succeeded; an error is the
/// answer of the last call made.
pub open spec fn initializes(nc: Seq<EngineCall>, r: Result<(), DbError>) -> bool {
    &&& nc.len() >= 1
    &&& is_batch(nc[0], SQL_PRAGMAS@)
    &&& match batch_answer(nc[0]) {
        Err(e) => nc.len() == 1 && r == Err::<(), DbError>(e),
        Ok(_) => {
            &&& nc.len() >= 2
            &&& is_batch(nc[1], SQL_CREATE_TABLES@)
            &&& match batch_answer(nc[1]) {
                Err(e) => nc.len() == 2 && r == Err::<(), DbError>(e),
                Ok(_) => seeds(nc.subrange(2, nc.len() as int), r),
            }
        },
    }
}

/// The store at `path` was opened, then set up as [`initializes`] says.
pub open spec fn opens_store(nc: Seq<EngineCall>, path: Seq<char>, r: Result<(), DbError>) -> bool {
    &&& nc.len() >= 1
    &&& nc[0] == EngineCall::Open { path: path, answer: Ok(()) }
    &&& initializes(nc.subrange(1, nc.len() as int), r)
}

/// SQLite's `COALESCE(?, column)`: the parameter, or the stored value where
/// the parameter is null.
pub open spec fn coalesce(p: ParamView, stored: ParamView) -> ParamView {
    match p {
        ParamView::Null => stored,
        _ => p,
    }
}

/// The columns `SQL_UPDATE_CHANNEL` leaves of a stored channel whose columns
/// are `cols` (in the order of `SQL_INSERT_CHANNEL`), given its parameters
/// `p`: name, api_type, base_url, api_key, models, enabled, priority and
/// weight take `COALESCE(?1, name)` to `COALESCE(?8, weight)`, updated_at
/// takes `?9`, and id and created_at stay.
pub open spec fn channel_after_update(cols: Seq<ParamView>, p: Seq<ParamView>) -> Seq<ParamView> {
    seq![
        cols[0],
        coalesce(p[0], cols[1]),
        coalesce(p[1], cols[2]),
        coalesce(p[2], cols[3]),
        coalesce(p[3], cols[4]),
        coalesce(p[4], cols[5]),
        coalesce(p[5], cols[6]),
        coalesce(p[6], cols[7]),
        coalesce(p[7], cols[8]),
        cols[9],
        p[8],
    ]
}

/// The channel update sets each field the request gives and keeps each one
/// it leaves out: run on the stored channel `c`, the statement leaves the
/// columns of the channel whose fields are the request's where given and
/// `c`'s otherwise, updated at `now`, with `c`'s id and creation time; and
/// it is aimed at `c`'s id.
pub proof fn lemma_update_channel_columns(c: Channel, req: UpdateChannel, now: String)
    ensures
        channel_after_update(params_view(spec_channel_params(c)), spec_channel_update_params(req, now@, c.id@))
            == params_view(
            spec_channel_params(
                (Channel {
                    id: c.id,
                    name: match req.name {
                        Some(v) => v,
                        None => c.name,
                    },
                    api_type: match req.api_type {
                        Some(v) => v,
                        None => c.api_type,
                    },
                    base_url: match req.base_url {
                        Some(v) => v,
                        None => c.base_url,
                    },
                    api_key: match req.api_key {
                        Some(v) => v,
                        None => c.api_key,
                    },
                    models: match req.models {
                        Some(v) => v,
                        None => c.models,
                    },
                    enabled: match req.enabled {
                        Some(v) => v,
                        None => c.enabled,
                    },
                    priority: match req.priority {
                        Some(v) => v,
                        None => c.priority,
                    },
                    weight: match req.weight {
                        Some(v) => v,
                        None => c.weight,
                    },
                    created_at: c.created_at,
                    updated_at: now,
                }),
            ),
        ),
        spec_channel_update_params(req, now@, c.id@)[9] == ParamView::Text(c.id@),
{
    let after = channel_after_update(params_view(spec_channel_params(c)), spec_channel_update_params(req, now@, c.id@));
    let want = params_view(
        spec_channel_params(
            (Channel {
                id: c.id,
                name: match req.name {
                    Some(v) => v,
                    None => c.name,
                },
                api_type: match req.api_type {
                    Some(v) => v,
                    None => c.api_type,
                },
                base_url: match req.base_url {
                    Some(v) => v,
                    None => c.base_url,
                },
                api_key: match req.api_key {
                    Some(v) => v,
                    None => c.api_key,
                },
                models: match req.models {
                    Some(v) => v,
                    None => c.models,
                },
                enabled: match req.enabled {
                    Some(v) => v,
                    None => c.enabled,
                },
                priority: match req.priority {
                    Some(v) => v,
                    None => c.priority,
                },
                weight: match req.weight {
                    Some(v) => v,
                    None => c.weight,
                },
                created_at: c.created_at,
                updated_at: now,
            }),
        ),
    );
    assert(after =~= want);
}

/// The columns of `SQL_INSERT_CHANNEL` for a channel made from `req` with
/// id `id` at time `now`, each the request's value where it has one.
pub open spec fn request_channel_params(req: CreateChannel, id: Seq<char>, now: Seq<char>) -> Seq<ParamView> {
    seq![
        ParamView::Text(id),
        ParamView::Text(req.name@),
        ParamView::Text(req.api_type@),
        ParamView::Text(req.base_url@),
        ParamView::Text(req.api_key@),
        ParamView::Text(req.models@),
        ParamView::Integer(1),
        ParamView::Integer(req.priority as i64),
        ParamView::Integer(req.weight as i64),
        ParamView::Text(now),
        ParamView::Text(now),
    ]
}

/// The channel `create_channel` inserts has the request's fields in the
/// columns of `SQL_INSERT_CHANNEL` (id, name, api_type, base_url, api_key,
/// models, enabled, priority, weight, created_at, updated_at): a fresh
/// 36-character id, the request's name, API type, base URL, API key, models,
/// priority and weight, enabled, created and updated at the same time.
pub proof fn lemma_created_channel_columns(nc: Seq<EngineCall>, req: CreateChannel, r: Result<Channel, DbError>)
    requires
        creates_channel(nc, req, r),
    ensures
        exists|id: Seq<char>, now: Seq<char>|
            id.len() == 36 && is_execute(nc[0], SQL_INSERT_CHANNEL@, #[trigger] request_channel_params(req, id, now)),
{
    let (id, now) = choose|id: String, now: String|
        #![trigger spec_new_channel(req, id, now)]
        {
            &&& id@.len() == 36
            &&& nc.len() >= 1
            &&& is_execute(nc[0], SQL_INSERT_CHANNEL@, params_view(spec_channel_params(spec_new_channel(req, id, now))))
            &&& match exec_answer(nc[0]) {
                Err(e) => nc.len() == 1 && r == Err::<Channel, DbError>(e),
                Ok(_) => {
                    &&& nc.len() == 2
                    &&& is_query(nc[1], SQL_GET_CHANNEL@, seq![ParamView::Text(id@)])
                    &&& r == match optional_of::<Channel>(query_answer(nc[1])) {
                        Ok(Some(c)) => Ok::<Channel, DbError>(c),
                        Ok(None) => Err(DbError::NoRows),
                        Err(e) => Err(e),
                    }
                },
            }
        };
    let want = seq![
        ParamView::Text(id@),
        ParamView::Text(req.name@),
        ParamView::Text(req.api_type@),
        ParamView::Text(req.base_url@),
        ParamView::Text(req.api_key@),
        ParamView::Text(req.models@),
        ParamView::Integer(1),
        ParamView::Integer(req.priority as i64),
        ParamView::Integer(req.weight as i64),
        ParamView::Text(now@),
        ParamView::Text(now@),
    ];
    assert(params_view(spec_channel_params(spec_new_channel(req, id, now))) =~= want);
    assert(want == request_channel_params(req, id@, now@));
    assert(is_execute(nc[0], SQL_INSERT_CHANNEL@, request_channel_params(req, id@, now@)));
}

/// The client key `create_api_key` inserts has, in the columns of
/// `SQL_INSERT_KEY` (id, name, key, usage_count, usage_limit, enabled,
/// created_at), its id, the requested name, its key text, no uses, the
/// requested limit, the enabled flag and its creation time.
pub proof fn lemma_issued_key_columns(k: ApiKey, req: CreateApiKey)
    requires
        issued_key(k, req),
    ensures
        params_view(spec_api_key_params(k)) == seq![
            ParamView::Text(k.id@),
            ParamView::Text(req.name@),
            ParamView::Text(k.key@),
            ParamView::Integer(0),
            ParamView::Integer(req.usage_limit),
            ParamView::Integer(1),
            ParamView::Text(k.created_at@),
        ],
{
    assert(params_view(spec_api_key_params(k)) =~= seq![
        ParamView::Text(k.id@),
        ParamView::Text(req.name@),
        ParamView::Text(k.key@),
        ParamView::Integer(0),
        ParamView::Integer(req.usage_limit),
        ParamView::Integer(1),
        ParamView::Text(k.created_at@),
    ]);
}

/// The gateway's SQLite database.
pub struct Database {
    conn: rusqlite::Connection,
    log: Ghost<Seq<EngineCall>>,
}

impl Database {
    /// Every call this database has handed to the engine, in order, with
    /// the engine's answers; the first is the opening of its file.
    pub closed spec fn calls(&self) -> Seq<EngineCall> {
        self.log@
    }

    fn batch(&mut self, sql: &str) -> (r: Result<(), DbError>)
        ensures
            final(self).calls() == old(self).calls().push(EngineCall::Batch { sql: sql@, answer: r }),
            r matches Err(e) ==> engine_error(e),
    {
        let r = engine(run_batch(&self.conn, sql));
        proof {
            self.log@ = self.log@.push(EngineCall::Batch { sql: sql@, answer: r });
        }
        r
    }

    fn execute(&mut self, sql: &str, params: Vec<SqlParam>) -> (r: Result<usize, DbError>)
        ensures
            final(self).calls() == old(self).calls().push(
                EngineCall::Execute { sql: sql@, params: params_view(params@), answer: r },
            ),
            r matches Err(e) ==> engine_error(e),
    {
        let ghost pv = params_view(params@);
        let r = engine(run_execute(&self.conn, sql, param_values(params)));
        proof {
            self.log@ = self.log@.push(EngineCall::Execute { sql: sql@, params: pv, answer: r });
        }
        r
    }

    fn query(&mut self, sql: &str, params: Vec<SqlParam>) -> (r: (Vec<Vec<SqlValue>>, Option<DbError>))
        ensures
            final(self).calls() == old(self).calls().push(
                EngineCall::Query { sql: sql@, params: params_view(params@), answer: (r.0@, r.1) },
            ),
            r.1 matches Some(e) ==> engine_error(e),
    {
        let ghost pv = params_view(params@);
        let (rows, error) = run_query(&self.conn, sql, param_values(params));
        let error = match error {
            Some(e) => Some(DbError::Sqlite(e)),
            None => None,
        };
        proof {
            self.log@ = self.log@.push(EngineCall::Query { sql: sql@, params: pv, answer: (rows@, error) });
        }
        (rows, error)
    }

    fn query_value<T: FromRow>(&mut self, sql: &str, params: Vec<SqlParam>) -> (r: Result<T, DbError>)
        ensures
            one_query(old(self).calls(), final(self).calls(), sql@, params_view(params@)),
            r == first_of::<T>(query_answer(final(self).calls().last())),
            r matches Err(e) ==> lookup_failure(e),
    {
        let (rows, error) = self.query(sql, params);
        read_first_row::<T>(&rows, error)
    }

    /// Opens the database at `path` (a file, or `:memory:`), creates the
    /// tables that are missing and adds the default user and settings.
    pub fn new(path: &str) -> (r: Result<Database, DbError>)
        ensures
            r matches Ok(db) ==> opens_store(db.calls(), path@, Ok(())),
            r matches Err(e) ==> engine_error(e) || exists|nc: Seq<EngineCall>| #[trigger]
                opens_store(nc, path@, Err(e)),
            r matches Err(e) ==> lookup_failure(e),
    {
        let mut db = Database::open(path)?;
        let ghost first = db.calls();
        let res = db.init();
        proof {
            assert(db.calls().subrange(0, 1) =~= first);
            assert(db.calls()[0] == first[0]);
            assert(db.calls().subrange(1, db.calls().len() as int) =~= new_calls(first, db.calls()));
        }
        match res {
            Ok(()) => Ok(db),
            Err(e) => {
                assert(opens_store(db.calls(), path@, Err(e)));
                Err(e)
            },
        }
    }

    /// Opens the database at `path` (a file, or `:memory:`) and nothing
    /// more; its record holds that one call.
    pub fn open(path: &str) -> (r: Result<Database, DbError>)
        ensures
            r matches Ok(db) ==> db.calls() == seq![EngineCall::Open { path: path@, answer: Ok(()) }],
            r matches Err(e) ==> engine_error(e),
    {
        let conn = engine(open_connection(path))?;
        let ghost first = seq![EngineCall::Open { path: path@, answer: Ok(()) }];
        Ok(Database { conn, log: Ghost(first) })
    }

    /// Sets up an open store: the pragmas, the tables that are missing, and
    /// the default user and settings where there are none.
    pub fn init(&mut self) -> (r: Result<(), DbError>)
        ensures
            extends(old(self).calls(), final(self).calls()),
            initializes(new_calls(old(self).calls(), final(self).calls()), r),
            r matches Err(e) ==> lookup_failure(e),
    {
        let ghost start = self.calls();
        let res = self.batch(SQL_PRAGMAS);
        let ghost c0 = self.calls().last();
        assert(new_calls(start, self.calls()) =~= seq![c0]);
        match res {
            Err(e) => {
                return Err(e);
            },
            Ok(()) => {},
        }
        let res = self.init_tables();
        let ghost c1 = self.calls().last();
        assert(new_calls(start, self.calls()) =~= seq![c0, c1]);
        match res {
            Err(e) => {
                return Err(e);
            },
            Ok(()) => {},
        }
        let ghost two = self.calls();
        let res = self.seed_defaults();
        proof {
            let nc = new_calls(start, self.calls());
            assert(nc[0] == c0);
            assert(nc[1] == c1);
            assert(nc.subrange(2, nc.len() as int) =~= new_calls(two, self.calls()));
        }
        res
    }

    fn init_tables(&mut self) -> (r: Result<(), DbError>)
        ensures
            final(self).calls() == old(self).calls().push(EngineCall::Batch { sql: SQL_CREATE_TABLES@, answer: r }),
            r matches Err(e) ==> engine_error(e),
    {
        self.batch(SQL_CREATE_TABLES)
    }

    fn seed_defaults(&mut self) -> (r: Result<(), DbError>)
        ensures
            r matches Err(e) ==> lookup_failure(e),
            extends(old(self).calls(), final(self).calls()),
            seeds(new_calls(old(self).calls(), final(self).calls()), r),
    {
        let ghost start = self.calls();
        let res = self.query_value::<i64>(SQL_COUNT_USERS, vec![]);
        let ghost c0 = self.calls().last();
        assert(self.calls() =~= start.push(c0));
        assert(new_calls(start, self.calls()) =~= seq![c0]);
        let users = match res {
            Err(e) => {
                return Err(e);
            },
            Ok(n) => n,
        };
        let ghost mut c1 = c0;
        if users == 0 {
            let hash = hash_password("admin");
            let id = new_id();
            let now = now_rfc3339();
            let ghost params = seq![
                ParamView::Text(id@),
                ParamView::Text("root"@),
                ParamView::Text(spec_hash_password("admin"@)),
                ParamView::Text(now@),
            ];
            let ps = vec![SqlParam::Text(id), text("root"), SqlParam::Text(hash), SqlParam::Text(now)];
            assert(params_view(ps@) =~= params);
            let res = self.execute(SQL_INSERT_USER, ps);
            proof {
                c1 = self.calls().last();
            }
            assert(new_calls(start, self.calls()) =~= seq![c0, c1]);
            match res {
                Err(e) => {
                    return Err(e);
                },
                Ok(_) => {},
            }
            assert(seeds_root(c1));
        }
        let ghost mid = self.calls();
        assert(users == 0 ==> mid =~= start.push(c0).push(c1));
        assert(users != 0 ==> mid =~= start.push(c0));
        let res = self.query_value::<i64>(SQL_COUNT_SETTINGS, vec![]);
        let ghost c2 = self.calls().last();
        assert(self.calls() =~= mid.push(c2));
        assert(new_calls(start, self.calls())[0] == c0);
        assert(new_calls(start, self.calls()).last() == c2);
        let settings = match res {
            Err(e) => {
                return Err(e);
            },
            Ok(n) => n,
        };
        let ghost before = self.calls();
        if settings == 0 {
            let res = self.execute(SQL_INSERT_SETTINGS, vec![]);
            assert(self.calls() =~= before.push(self.calls().last()));
            assert(new_calls(start, self.calls())[0] == c0);
            match res {
                Err(e) => {
                    return Err(e);
                },
                Ok(_) => {},
            }
        }
        proof {
            let nc = new_calls(start, self.calls());
            let k: int = if users == 0 { 2 } else { 1 };
            if users == 0 {
                assert(nc[0] == c0);
                assert(nc[1] == c1);
            } else {
                assert(nc[0] == c0);
            }
            assert(nc[k] == c2);
            if settings == 0 {
                assert(nc[k + 1] == self.calls().last());
            }
            assert(first_of::<i64>(query_answer(nc[0])) == Ok::<i64, DbError>(users));
            assert(first_of::<i64>(query_answer(nc[k])) == Ok::<i64, DbError>(settings));
            assert(is_query(nc[0], SQL_COUNT_USERS@, seq![]));
            assert(is_query(nc[k], SQL_COUNT_SETTINGS@, seq![]));
            assert(nc.len() == k + 1 + (if settings == 0 { 1int } else { 0int }));
            assert(seeded(nc));
        }
        Ok(())
    }

    // ---------------------------------------------------------------
    // Users and sessions
    // ---------------------------------------------------------------
    /// The id and name of the user with this name and password, if any.
    pub fn login(&mut self, username: &str, password: &str) -> (r: Result<Option<(String, String)>, DbError>)
        ensures
            one_query(
                old(self).calls(),
                final(self).calls(),
                SQL_LOGIN@,
                seq![ParamView::Text(username@), ParamView::Text(spec_hash_password(password@))],
            ),
            r == optional_of::<(String, String)>(query_answer(final(self).calls().last())),
            r matches Err(e) ==> read_failure(e),
    {
        let hash = hash_password(password);
        let (rows, error) = self.query(SQL_LOGIN, vec![text(username), SqlParam::Text(hash)]);
        read_optional_row::<(String, String)>(&rows, error)
    }

    /// Replaces the password of `username` if `old_password` is its current
    /// one; tells whether it did.
    pub fn change_password(
        &mut self,
        username: &str,
        old_password: &str,
        new_password: &str,
    ) -> (r: Result<bool, DbError>)
        ensures
            extends(old(self).calls(), final(self).calls()),
            changes_password(
                new_calls(old(self).calls(), final(self).calls()),
                username@,
                old_password@,
                new_password@,
                r,
            ),
            r matches Err(e) ==> lookup_failure(e),
    {
        let ghost start = self.calls();
        let old_hash = hash_password(old_password);
        let res = self.query_value::<i64>(SQL_COUNT_PASSWORD, vec![text(username), SqlParam::Text(old_hash)]);
        let ghost c0 = self.calls().last();
        assert(new_calls(start, self.calls()) =~= seq![c0]);
        let count = match res {
            Err(e) => {
                return Err(e);
            },
            Ok(n) => n,
        };
        if count == 0 {
            return Ok(false);
        }
        let new_hash = hash_password(new_password);
        let res = self.execute(SQL_SET_PASSWORD, vec![SqlParam::Text(new_hash), text(username)]);
        let ghost c1 = self.calls().last();
        assert(new_calls(start, self.calls()) =~= seq![c0, c1]);
        match res {
            Err(e) => Err(e),
            Ok(_) => Ok(true),
        }
    }

    /// Stores a session token for `username`, replacing one with the same token.
    pub fn store_session(&mut self, token: &str, username: &str, expires_at: &str) -> (r: Result<(), DbError>)
        ensures
            one_execute(
                old(self).calls(),
                final(self).calls(),
                SQL_STORE_SESSION@,
                seq![ParamView::Text(token@), ParamView::Text(username@), ParamView::Text(expires_at@)],
            ),
            r == done_of(exec_answer(final(self).calls().last())),
    {
        self.execute(SQL_STORE_SESSION, vec![text(token), text(username), text(expires_at)])?;
        Ok(())
    }

    /// The user of a session token that has not expired at the current
    /// time, if any.
    pub fn verify_session(&mut self, token: &str) -> (r: Result<Option<String>, DbError>)
        ensures
            exists|now: Seq<char>|
                one_query(
                    old(self).calls(),
                    final(self).calls(),
                    SQL_VERIFY_SESSION@,
                    seq![ParamView::Text(token@), ParamView::Text(now)],
                ),
            r == optional_of::<String>(query_answer(final(self).calls().last())),
            r matches Err(e) ==> read_failure(e),
    {
        let now = now_rfc3339();
        let ghost n = now@;
        let res = self.query(SQL_VERIFY_SESSION, vec![text(token), SqlParam::Text(now)]);
        assert(one_query(
            old(self).calls(),
            self.calls(),
            SQL_VERIFY_SESSION@,
            seq![ParamView::Text(token@), ParamView::Text(n)],
        ));
        let (rows, error) = res;
        read_optional_row::<String>(&rows, error)
    }

    /// Removes a session token.
    pub fn delete_session(&mut self, token: &str) -> (r: Result<(), DbError>)
        ensures
            one_execute(old(self).calls(), final(self).calls(), SQL_DELETE_SESSION@, seq![ParamView::Text(token@)]),
            r == done_of(exec_answer(final(self).calls().last())),
    {
        self.execute(SQL_DELETE_SESSION, vec![text(token)])?;
        Ok(())
    }

    // ---------------------------------------------------------------
    // Pool entries
    // ---------------------------------------------------------------
    /// All pool entries with their channel's name, by sort index.
    pub fn list_entries(&mut self) -> (r: Result<Vec<ApiEntry>, DbError>)
        ensures
            one_query(old(self).calls(), final(self).calls(), SQL_LIST_ENTRIES@, seq![]),
            same_list(r, list_of::<ApiEntry>(query_answer(final(self).calls().last()))),
            r matches Err(e) ==> read_failure(e),
    {
        let (rows, error) = self.query(SQL_LIST_ENTRIES, vec![]);
        read_rows::<ApiEntry>(&rows, error)
    }

    /// Adds an enabled entry after the last one and reads it back.
    pub fn create_entry(&mut self, req: &CreateEntry) -> (r: Result<ApiEntry, DbError>)
        ensures
            extends(old(self).calls(), final(self).calls()),
            creates_entry(new_calls(old(self).calls(), final(self).calls()), *req, r),
            r matches Err(e) ==> lookup_failure(e) || e is EntryNotFound,
            r matches Ok(e) ==> e.id@.len() == 36,
    {
        let ghost start = self.calls();
        let id = new_id();
        let now = now_rfc3339();
        let ghost idv = id@;
        let ghost nowv = now@;
        let res = self.query_value::<i32>(SQL_MAX_SORT_INDEX, vec![]);
        let ghost c0 = self.calls().last();
        assert(new_calls(start, self.calls()) =~= seq![c0]);
        let max_index = match res {
            Err(e) => {
                return Err(e);
            },
            Ok(m) => m,
        };
        let priority = match req.priority {
            Some(p) => p,
            None => 0,
        };
        let ps = vec![
            SqlParam::Text(id.clone()),
            SqlParam::Text(req.channel_id.clone()),
            SqlParam::Text(req.model.clone()),
            opt_text_param(&req.display_name),
            SqlParam::Integer(priority as i64),
            SqlParam::Integer(next_sort_index(max_index) as i64),
            SqlParam::Text(now),
        ];
        assert(params_view(ps@) =~= spec_entry_insert_params(idv, *req, max_index, nowv));
        let ghost mid = self.calls();
        let res = self.execute(SQL_INSERT_ENTRY, ps);
        let ghost c1 = self.calls().last();
        assert(self.calls() =~= mid.push(c1));
        assert(new_calls(start, self.calls()) =~= seq![c0, c1]);
        assert(is_execute(c1, SQL_INSERT_ENTRY@, spec_entry_insert_params(idv, *req, max_index, nowv)));
        match res {
            Err(e) => {
                return Err(e);
            },
            Ok(_) => {},
        }
        let ghost mid2 = self.calls();
        let res = self.list_entries();
        let ghost c2 = self.calls().last();
        assert(self.calls() =~= mid2.push(c2));
        assert(new_calls(start, self.calls()) =~= seq![c0, c1, c2]);
        let entries = match res {
            Err(e) => {
                return Err(e);
            },
            Ok(v) => v,
        };
        find_entry(entries, &id)
    }

    /// Enables or disables an entry; tells whether it exists.
    pub fn toggle_entry(&mut self, id: &str, enabled: bool) -> (r: Result<bool, DbError>)
        ensures
            one_execute(
                old(self).calls(),
                final(self).calls(),
                SQL_TOGGLE_ENTRY@,
                seq![flag_view(enabled), ParamView::Text(id@)],
            ),
            r == changed_of(exec_answer(final(self).calls().last())),
    {
        let count = self.execute(SQL_TOGGLE_ENTRY, vec![flag_param_of(enabled), text(id)])?;
        Ok(changed_any(count))
    }

    /// Gives the entry `ordered_ids[i]` the sort index `i`, in order; stops
    /// at the first statement that fails.
    pub fn reorder_entries(&mut self, ordered_ids: &[String]) -> (r: Result<(), DbError>)
        ensures
            extends(old(self).calls(), final(self).calls()),
            reorders(new_calls(old(self).calls(), final(self).calls()), ordered_ids@, r),
            r matches Err(e) ==> engine_error(e),
    {
        let ghost start = self.calls();
        let mut i: usize = 0;
        while i < ordered_ids.len()
            invariant
                i <= ordered_ids@.len(),
                start == old(self).calls(),
                extends(start, self.calls()),
                new_calls(start, self.calls()).len() == i,
                forall|j: int|
                    0 <= j < i ==> is_execute(
                        #[trigger] new_calls(start, self.calls())[j],
                        SQL_SORT_ENTRY@,
                        seq![ParamView::Integer((j as i32) as i64), ParamView::Text(ordered_ids@[j]@)],
                    ) && exec_answer(new_calls(start, self.calls())[j]) is Ok,
            decreases ordered_ids@.len() - i,
        {
            let ghost before = self.calls();
            let index = i as i32;
            let res = self.execute(
                SQL_SORT_ENTRY,
                vec![SqlParam::Integer(index as i64), SqlParam::Text(ordered_ids[i].clone())],
            );
            proof {
                let nc = new_calls(start, self.calls());
                let pc = new_calls(start, before);
                assert(nc =~= pc.push(self.calls().last()));
                assert forall|j: int| 0 <= j < i implies nc[j] == pc[j] by {}
                assert(nc[i as int] == self.calls().last());
                assert(self.calls().subrange(0, start.len() as int) =~= start);
                assert(is_execute(
                    nc[i as int],
                    SQL_SORT_ENTRY@,
                    seq![ParamView::Integer((i as i32) as i64), ParamView::Text(ordered_ids@[i as int]@)],
                ));
            }
            match res {
                Err(e) => {
                    return Err(e);
                },
                Ok(_) => {},
            }
            i = i + 1;
        }
        Ok(())
    }

    /// Removes an entry; tells whether it existed.
    pub fn delete_entry(&mut self, id: &str) -> (r: Result<bool, DbError>)
        ensures
            one_execute(old(self).calls(), final(self).calls(), SQL_DELETE_ENTRY@, seq![ParamView::Text(id@)]),
            r == changed_of(exec_answer(final(self).calls().last())),
    {
        let count = self.execute(SQL_DELETE_ENTRY, vec![text(id)])?;
        Ok(changed_any(count))
    }

    /// Records the last measured response time of an entry.
    pub fn update_entry_response_ms(&mut self, id: &str, response_ms: &str) -> (r: Result<(), DbError>)
        ensures
            one_execute(
                old(self).calls(),
                final(self).calls(),
                SQL_ENTRY_RESPONSE_MS@,
                seq![ParamView::Text(response_ms@), ParamView::Text(id@)],
            ),
            r == done_of(exec_answer(final(self).calls().last())),
    {
        self.execute(SQL_ENTRY_RESPONSE_MS, vec![text(response_ms), text(id)])?;
        Ok(())
    }

    // ---------------------------------------------------------------
    // Dashboard
    // ---------------------------------------------------------------
    /// Request and token totals, overall and since the start of today (UTC).
    pub fn get_dashboard_stats(&mut self) -> (r: Result<DashboardStats, DbError>)
        ensures
            extends(old(self).calls(), final(self).calls()),
            dashboard_answers(new_calls(old(self).calls(), final(self).calls()), r),
            r matches Err(e) ==> lookup_failure(e),
    {
        let ghost start = self.calls();
        let today = today_date();
        let ghost tv = today@;
        let res = self.query_value::<i64>(SQL_COUNT_LOGS, vec![]);
        let ghost c0 = self.calls().last();
        assert(new_calls(start, self.calls()) =~= seq![c0]);
        let total_requests = match res {
            Err(e) => {
                return Err(e);
            },
            Ok(v) => v,
        };
        let res = self.query_value::<i64>(SQL_COUNT_LOGS_SINCE, vec![SqlParam::Text(today.clone())]);
        let ghost c1 = self.calls().last();
        assert(new_calls(start, self.calls()) =~= seq![c0, c1]);
        let today_requests = match res {
            Err(e) => {
                return Err(e);
            },
            Ok(v) => v,
        };
        let res = self.query_value::<i64>(SQL_SUM_PROMPT, vec![]);
        let ghost c2 = self.calls().last();
        assert(new_calls(start, self.calls()) =~= seq![c0, c1, c2]);
        let total_prompt_tokens = match res {
            Err(e) => {
                return Err(e);
            },
            Ok(v) => v,
        };
        let res = self.query_value::<i64>(SQL_SUM_COMPLETION, vec![]);
        let ghost c3 = self.calls().last();
        assert(new_calls(start, self.calls()) =~= seq![c0, c1, c2, c3]);
        let total_completion_tokens = match res {
            Err(e) => {
                return Err(e);
            },
            Ok(v) => v,
        };
        let res = self.query_value::<i64>(SQL_SUM_PROMPT_SINCE, vec![SqlParam::Text(today.clone())]);
        let ghost c4 = self.calls().last();
        assert(new_calls(start, self.calls()) =~= seq![c0, c1, c2, c3, c4]);
        let today_prompt_tokens = match res {
            Err(e) => {
                return Err(e);
            },
            Ok(v) => v,
        };
        let res = self.query_value::<i64>(SQL_SUM_COMPLETION_SINCE, vec![SqlParam::Text(today)]);
        let ghost c5 = self.calls().last();
        assert(new_calls(start, self.calls()) =~= seq![c0, c1, c2, c3, c4, c5]);
        let today_completion_tokens = match res {
            Err(e) => {
                return Err(e);
            },
            Ok(v) => v,
        };
        let counts = [
            total_requests,
            today_requests,
            total_prompt_tokens,
            total_completion_tokens,
            today_prompt_tokens,
            today_completion_tokens,
        ];
        let stats = dashboard_from_counts(&counts);
        assert(dashboard_queries(new_calls(start, self.calls()), tv));
        Ok(stats)
    }

    /// The `limit` most requested models, with their request and token counts.
    pub fn get_model_ranking(&mut self, limit: i64) -> (r: Result<Vec<ModelRanking>, DbError>)
        ensures
            one_query(old(self).calls(), final(self).calls(), SQL_MODEL_RANKING@, seq![ParamView::Integer(limit)]),
            same_list(r, list_of::<ModelRanking>(query_answer(final(self).calls().last()))),
            r matches Err(e) ==> read_failure(e),
    {
        let (rows, error) = self.query(SQL_MODEL_RANKING, vec![SqlParam::Integer(limit)]);
        read_rows::<ModelRanking>(&rows, error)
    }

    /// Requests per model and day (`day`) or hour (anything else).
    pub fn get_chart_data(&mut self, granularity: &str) -> (r: Result<Vec<ChartDataPoint>, DbError>)
        ensures
            one_query(old(self).calls(), final(self).calls(), spec_chart_sql(granularity@), seq![]),
            same_list(r, list_of::<ChartDataPoint>(query_answer(final(self).calls().last()))),
            r matches Err(e) ==> read_failure(e),
    {
        let sql = chart_sql(granularity);
        let (rows, error) = self.query(sql.as_str(), vec![]);
        read_rows::<ChartDataPoint>(&rows, error)
    }

    // ---------------------------------------------------------------
    // Channels
    // ---------------------------------------------------------------
    /// All channels, highest priority first, then highest weight.
    pub fn list_channels(&mut self) -> (r: Result<Vec<Channel>, DbError>)
        ensures
            one_query(old(self).calls(), final(self).calls(), SQL_LIST_CHANNELS@, seq![]),
            same_list(r, list_of::<Channel>(query_answer(final(self).calls().last()))),
            r matches Err(e) ==> read_failure(e),
    {
        let (rows, error) = self.query(SQL_LIST_CHANNELS, vec![]);
        read_rows::<Channel>(&rows, error)
    }

    /// The channel with this id, if any.
    pub fn get_channel(&mut self, id: &str) -> (r: Result<Option<Channel>, DbError>)
        ensures
            one_query(old(self).calls(), final(self).calls(), SQL_GET_CHANNEL@, seq![ParamView::Text(id@)]),
            r == optional_of::<Channel>(query_answer(final(self).calls().last())),
            r matches Err(e) ==> read_failure(e),
    {
        let (rows, error) = self.query(SQL_GET_CHANNEL, vec![text(id)]);
        read_optional_row::<Channel>(&rows, error)
    }

    /// Adds an enabled channel and reads it back; a channel that cannot be
    /// read back is [`DbError::NoRows`].
    pub fn create_channel(&mut self, req: &CreateChannel) -> (r: Result<Channel, DbError>)
        ensures
            extends(old(self).calls(), final(self).calls()),
            creates_channel(new_calls(old(self).calls(), final(self).calls()), *req, r),
            r matches Err(e) ==> lookup_failure(e),
    {
        let ghost start = self.calls();
        let id = new_id();
        let now = now_rfc3339();
        let given = id.clone();
        let ghost idg = given;
        let ghost nowg = now;
        let c = new_channel(req, given, now);
        let res = self.execute(SQL_INSERT_CHANNEL, channel_params(c));
        let ghost c0 = self.calls().last();
        assert(new_calls(start, self.calls()) =~= seq![c0]);
        assert(is_execute(c0, SQL_INSERT_CHANNEL@, params_view(spec_channel_params(spec_new_channel(*req, idg, nowg)))));
        match res {
            Err(e) => {
                return Err(e);
            },
            Ok(_) => {},
        }
        let ghost mid = self.calls();
        let res = self.get_channel(id.as_str());
        let ghost c1 = self.calls().last();
        assert(self.calls() =~= mid.push(c1));
        assert(new_calls(start, self.calls()) =~= seq![c0, c1]);
        match res {
            Err(e) => Err(e),
            Ok(Some(c)) => Ok(c),
            Ok(None) => Err(DbError::NoRows),
        }
    }

    /// Writes the fields of a channel that `req` gives (a field it leaves
    /// out keeps its stored value) and the update time, then reads the
    /// channel back; `None` when there is no such channel.
    pub fn update_channel(&mut self, id: &str, req: &UpdateChannel) -> (r: Result<Option<Channel>, DbError>)
        ensures
            extends(old(self).calls(), final(self).calls()),
            updates_channel(new_calls(old(self).calls(), final(self).calls()), id@, *req, r),
            r matches Err(e) ==> read_failure(e),
    {
        let ghost start = self.calls();
        let res = self.get_channel(id);
        let ghost c0 = self.calls().last();
        assert(new_calls(start, self.calls()) =~= seq![c0]);
        match res {
            Err(e) => {
                return Err(e);
            },
            Ok(None) => {
                return Ok(None);
            },
            Ok(Some(_)) => {},
        }
        let now = now_rfc3339();
        let ghost nv = now@;
        let ps = channel_update_params(req, now, id);
        let ghost mid = self.calls();
        let res = self.execute(SQL_UPDATE_CHANNEL, ps);
        let ghost c1 = self.calls().last();
        assert(self.calls() =~= mid.push(c1));
        assert(new_calls(start, self.calls()) =~= seq![c0, c1]);
        assert(is_execute(c1, SQL_UPDATE_CHANNEL@, spec_channel_update_params(*req, nv, id@)));
        match res {
            Err(e) => {
                return Err(e);
            },
            Ok(_) => {},
        }
        let ghost mid2 = self.calls();
        let res = self.get_channel(id);
        let ghost c2 = self.calls().last();
        assert(self.calls() =~= mid2.push(c2));
        assert(new_calls(start, self.calls()) =~= seq![c0, c1, c2]);
        res
    }

    /// Enables or disables a channel and sets its update time; tells
    /// whether it exists.
    pub fn toggle_channel(&mut self, id: &str, enabled: bool) -> (r: Result<bool, DbError>)
        ensures
            exists|now: Seq<char>|
                one_execute(
                    old(self).calls(),
                    final(self).calls(),
                    SQL_TOGGLE_CHANNEL@,
                    seq![flag_view(enabled), ParamView::Text(now), ParamView::Text(id@)],
                ),
            r == changed_of(exec_answer(final(self).calls().last())),
    {
        let now = now_rfc3339();
        let ghost nv = now@;
        let res = self.execute(SQL_TOGGLE_CHANNEL, vec![flag_param_of(enabled), SqlParam::Text(now), text(id)]);
        assert(one_execute(
            old(self).calls(),
            self.calls(),
            SQL_TOGGLE_CHANNEL@,
            seq![flag_view(enabled), ParamView::Text(nv), ParamView::Text(id@)],
        ));
        let count = res?;
        Ok(changed_any(count))
    }

    /// Removes a channel; tells whether it existed.
    pub fn delete_channel(&mut self, id: &str) -> (r: Result<bool, DbError>)
        ensures
            one_execute(old(self).calls(), final(self).calls(), SQL_DELETE_CHANNEL@, seq![ParamView::Text(id@)]),
            r == changed_of(exec_answer(final(self).calls().last())),
    {
        let count = self.execute(SQL_DELETE_CHANNEL, vec![text(id)])?;
        Ok(changed_any(count))
    }

    /// Stores the model list of a channel as a JSON array and sets its
    /// update time.
    pub fn update_channel_models(&mut self, id: &str, models: &[String]) -> (r: Result<(), DbError>)
        ensures
            exists|now: Seq<char>|
                one_execute(
                    old(self).calls(),
                    final(self).calls(),
                    SQL_CHANNEL_MODELS@,
                    #[trigger] models_update_params(models@, now, id@),
                ),
            r == done_of(exec_answer(final(self).calls().last())),
    {
        let models_text = models_json(models);
        let now = now_rfc3339();
        let ghost nv = now@;
        let res = self.execute(SQL_CHANNEL_MODELS, vec![SqlParam::Text(models_text), SqlParam::Text(now), text(id)]);
        assert(one_execute(
            old(self).calls(),
            self.calls(),
            SQL_CHANNEL_MODELS@,
            models_update_params(models@, nv, id@),
        ));
        res?;
        Ok(())
    }

    // ---------------------------------------------------------------
    // Client keys
    // ---------------------------------------------------------------
    /// All client keys, newest first.
    pub fn list_api_keys(&mut self) -> (r: Result<Vec<ApiKey>, DbError>)
        ensures
            one_query(old(self).calls(), final(self).calls(), SQL_LIST_KEYS@, seq![]),
            same_list(r, list_of::<ApiKey>(query_answer(final(self).calls().last()))),
            r matches Err(e) ==> read_failure(e),
    {
        let (rows, error) = self.query(SQL_LIST_KEYS, vec![]);
        read_rows::<ApiKey>(&rows, error)
    }

    /// Issues an enabled, unused client key: stores it and returns it.
    pub fn create_api_key(&mut self, req: &CreateApiKey) -> (r: Result<ApiKey, DbError>)
        ensures
            exists|k: ApiKey|
                #[trigger] issued_key(k, *req) && one_execute(
                    old(self).calls(),
                    final(self).calls(),
                    SQL_INSERT_KEY@,
                    params_view(spec_api_key_params(k)),
                ) && r == match exec_answer(final(self).calls().last()) {
                    Ok(_) => Ok::<ApiKey, DbError>(k),
                    Err(e) => Err(e),
                },
    {
        let random = random_24_bytes();
        let k = ApiKey {
            id: new_id(),
            name: req.name.clone(),
            key: api_key_text(&random),
            usage_count: 0,
            usage_limit: req.usage_limit,
            enabled: true,
            created_at: now_rfc3339(),
        };
        let ghost kg = k;
        assert(issued_key(kg, *req));
        let res = self.execute(SQL_INSERT_KEY, api_key_params(&k));
        match res {
            Err(e) => Err(e),
            Ok(_) => Ok(k),
        }
    }

    /// The enabled client key with this text, unless its usage limit is used up.
    pub fn validate_api_key(&mut self, key: &str) -> (r: Result<Option<ApiKey>, DbError>)
        ensures
            one_query(old(self).calls(), final(self).calls(), SQL_FIND_KEY@, seq![ParamView::Text(key@)]),
            r == match optional_of::<ApiKey>(query_answer(final(self).calls().last())) {
                Ok(found) => Ok::<Option<ApiKey>, DbError>(spec_usable_key(found)),
                Err(e) => Err(e),
            },
            r matches Err(e) ==> read_failure(e),
            r matches Ok(Some(k)) ==> !(k.usage_limit > 0 && k.usage_count >= k.usage_limit),
    {
        let (rows, error) = self.query(SQL_FIND_KEY, vec![text(key)]);
        match read_optional_row::<ApiKey>(&rows, error) {
            Ok(found) => Ok(usable_key(found)),
            Err(e) => Err(e),
        }
    }

    /// Counts one more use of a client key.
    pub fn increment_key_usage(&mut self, id: &str) -> (r: Result<(), DbError>)
        ensures
            one_execute(old(self).calls(), final(self).calls(), SQL_USE_KEY@, seq![ParamView::Text(id@)]),
            r == done_of(exec_answer(final(self).calls().last())),
    {
        self.execute(SQL_USE_KEY, vec![text(id)])?;
        Ok(())
    }

    /// Enables or disables a client key; tells whether it exists.
    pub fn toggle_api_key(&mut self, id: &str, enabled: bool) -> (r: Result<bool, DbError>)
        ensures
            one_execute(
                old(self).calls(),
                final(self).calls(),
                SQL_TOGGLE_KEY@,
                seq![flag_view(enabled), ParamView::Text(id@)],
            ),
            r == changed_of(exec_answer(final(self).calls().last())),
    {
        let count = self.execute(SQL_TOGGLE_KEY, vec![flag_param_of(enabled), text(id)])?;
        Ok(changed_any(count))
    }

    /// Removes a client key; tells whether it existed.
    pub fn delete_api_key(&mut self, id: &str) -> (r: Result<bool, DbError>)
        ensures
            one_execute(old(self).calls(), final(self).calls(), SQL_DELETE_KEY@, seq![ParamView::Text(id@)]),
            r == changed_of(exec_answer(final(self).calls().last())),
    {
        let count = self.execute(SQL_DELETE_KEY, vec![text(id)])?;
        Ok(changed_any(count))
    }

    // ---------------------------------------------------------------
    // Request logs
    // ---------------------------------------------------------------
    /// Stores one request log.
    pub fn create_log(&mut self, log: &RequestLog) -> (r: Result<(), DbError>)
        ensures
            one_execute(old(self).calls(), final(self).calls(), SQL_INSERT_LOG@, params_view(spec_log_params(*log))),
            r == done_of(exec_answer(final(self).calls().last())),
    {
        self.execute(SQL_INSERT_LOG, log_params(log))?;
        Ok(())
    }

    /// A page of request logs, newest first, with the number of all logs.
    /// The channel, model and status filters are accepted and not applied.
    pub fn list_logs(
        &mut self,
        limit: i64,
        offset: i64,
        _channel_id: Option<&str>,
        _model: Option<&str>,
        _status: Option<i32>,
    ) -> (r: Result<(Vec<RequestLog>, i64), DbError>)
        ensures
            extends(old(self).calls(), final(self).calls()),
            pages_logs(new_calls(old(self).calls(), final(self).calls()), limit, offset, r),
            r matches Err(e) ==> lookup_failure(e),
    {
        let ghost start = self.calls();
        let res = self.query_value::<i64>(SQL_COUNT_LOGS, vec![]);
        let ghost c0 = self.calls().last();
        assert(new_calls(start, self.calls()) =~= seq![c0]);
        let total = match res {
            Err(e) => {
                return Err(e);
            },
            Ok(v) => v,
        };
        let ghost mid = self.calls();
        let res = self.query(SQL_PAGE_LOGS, vec![SqlParam::Integer(limit), SqlParam::Integer(offset)]);
        let ghost c1 = self.calls().last();
        assert(self.calls() =~= mid.push(c1));
        assert(new_calls(start, self.calls()) =~= seq![c0, c1]);
        let (rows, error) = res;
        match read_rows::<RequestLog>(&rows, error) {
            Ok(logs) => Ok((logs, total)),
            Err(e) => Err(e),
        }
    }

    /// Numbers of all, successful (2xx), failed (4xx and up) and today's requests.
    pub fn get_log_stats(&mut self) -> (r: Result<LogStats, DbError>)
        ensures
            extends(old(self).calls(), final(self).calls()),
            log_stats_answers(new_calls(old(self).calls(), final(self).calls()), r),
            r matches Err(e) ==> lookup_failure(e),
    {
        let ghost start = self.calls();
        let res = self.query_value::<i64>(SQL_COUNT_LOGS, vec![]);
        let ghost c0 = self.calls().last();
        assert(new_calls(start, self.calls()) =~= seq![c0]);
        let total = match res {
            Err(e) => {
                return Err(e);
            },
            Ok(v) => v,
        };
        let res = self.query_value::<i64>(SQL_COUNT_SUCCESS, vec![]);
        let ghost c1 = self.calls().last();
        assert(new_calls(start, self.calls()) =~= seq![c0, c1]);
        let success = match res {
            Err(e) => {
                return Err(e);
            },
            Ok(v) => v,
        };
        let res = self.query_value::<i64>(SQL_COUNT_ERRORS, vec![]);
        let ghost c2 = self.calls().last();
        assert(new_calls(start, self.calls()) =~= seq![c0, c1, c2]);
        let errors = match res {
            Err(e) => {
                return Err(e);
            },
            Ok(v) => v,
        };
        let today = today_date();
        let ghost tv = today@;
        let res = self.query_value::<i64>(SQL_COUNT_LOGS_SINCE, vec![SqlParam::Text(today)]);
        let ghost c3 = self.calls().last();
        assert(new_calls(start, self.calls()) =~= seq![c0, c1, c2, c3]);
        assert(is_query(c3, SQL_COUNT_LOGS_SINCE@, seq![ParamView::Text(tv)]));
        let today_count = match res {
            Err(e) => {
                return Err(e);
            },
            Ok(v) => v,
        };
        let counts = [total, success, errors, today_count];
        Ok(log_stats_from_counts(&counts))
    }

    /// Removes all request logs.
    pub fn clear_logs(&mut self) -> (r: Result<(), DbError>)
        ensures
            one_execute(old(self).calls(), final(self).calls(), SQL_CLEAR_LOGS@, seq![]),
            r == done_of(exec_answer(final(self).calls().last())),
    {
        self.execute(SQL_CLEAR_LOGS, vec![])?;
        Ok(())
    }

    // ---------------------------------------------------------------
    // Settings
    // ---------------------------------------------------------------
    /// The stored settings, or the defaults when they cannot be read; never
    /// an error.
    pub fn get_settings(&mut self) -> (r: Result<Settings, DbError>)
        ensures
            one_query(old(self).calls(), final(self).calls(), SQL_GET_SETTINGS@, seq![]),
            r matches Ok(s) && match first_of::<Settings>(query_answer(final(self).calls().last())) {
                Ok(t) => s == t,
                Err(_) => s.is_default(),
            },
    {
        let (rows, error) = self.query(SQL_GET_SETTINGS, vec![]);
        Ok(settings_or_default(read_first_row::<Settings>(&rows, error)))
    }

    /// Stores the settings.
    pub fn update_settings(&mut self, s: &Settings) -> (r: Result<(), DbError>)
        ensures
            one_execute(
                old(self).calls(),
                final(self).calls(),
                SQL_UPDATE_SETTINGS@,
                params_view(spec_settings_params(*s)),
            ),
            r == done_of(exec_answer(final(self).calls().last())),
    {
        self.execute(SQL_UPDATE_SETTINGS, settings_params(s))?;
        Ok(())
    }
}

} // verus!
