//! The parameters records are written with, and the law that a record
//! written this way decodes back to itself.
//!
//! The law rests on a model, [`stored`], of what SQLite gives back for a
//! stored parameter: null as null, an integer as that integer, text as that
//! text. It is a model, not a fact proved of SQLite. Each record's
//! parameters are in the order of the columns it is read from.

use vstd::prelude::*;
use crate::models::{ApiKey, Channel, CreateChannel, RequestLog, Settings};
use crate::rows::{
    lemma_api_key_columns, lemma_channel_columns, lemma_log_columns, lemma_settings_columns,
    api_key_kinds, channel_kinds, column_error, first_error, log_kinds, settings_kinds, ColumnKind,
    FromRow,
};
use crate::sql::{DbError, SqlParam, SqlValue};

verus! {

/// The value SQLite gives back for a stored parameter.
pub open spec fn stored(p: SqlParam) -> SqlValue {
    match p {
        SqlParam::Null => SqlValue::Null,
        SqlParam::Integer(n) => SqlValue::Integer(n),
        SqlParam::Text(s) => SqlValue::Text(s),
    }
}

/// The row SQLite gives back for stored parameters.
pub open spec fn stored_row(params: Seq<SqlParam>) -> Seq<SqlValue> {
    params.map_values(|p: SqlParam| stored(p))
}

/// Text or null.
pub open spec fn opt_param(s: Option<String>) -> SqlParam {
    match s {
        Some(t) => SqlParam::Text(t),
        None => SqlParam::Null,
    }
}

/// A flag as the integer 1 or 0.
pub open spec fn flag_param(b: bool) -> SqlParam {
    SqlParam::Integer(if b { 1 } else { 0 })
}

pub(crate) fn opt_text_param(s: &Option<String>) -> (r: SqlParam)
    ensures
        r == opt_param(*s),
{
    match s {
        Some(t) => SqlParam::Text(t.clone()),
        None => SqlParam::Null,
    }
}

pub(crate) fn flag_param_of(b: bool) -> (r: SqlParam)
    ensures
        r == flag_param(b),
{
    SqlParam::Integer(if b { 1 } else { 0 })
}

/// The parameters a channel is written with.
pub open spec fn spec_channel_params(c: Channel) -> Seq<SqlParam> {
    seq![
        SqlParam::Text(c.id),
        SqlParam::Text(c.name),
        SqlParam::Text(c.api_type),
        SqlParam::Text(c.base_url),
        SqlParam::Text(c.api_key),
        SqlParam::Text(c.models),
        flag_param(c.enabled),
        SqlParam::Integer(c.priority as i64),
        SqlParam::Integer(c.weight as i64),
        SqlParam::Text(c.created_at),
        SqlParam::Text(c.updated_at),
    ]
}

/// Writes out a channel's columns.
pub fn channel_params(c: Channel) -> (r: Vec<SqlParam>)
    ensures
        r@ == spec_channel_params(c),
{
    vec![
        SqlParam::Text(c.id),
        SqlParam::Text(c.name),
        SqlParam::Text(c.api_type),
        SqlParam::Text(c.base_url),
        SqlParam::Text(c.api_key),
        SqlParam::Text(c.models),
        flag_param_of(c.enabled),
        SqlParam::Integer(c.priority as i64),
        SqlParam::Integer(c.weight as i64),
        SqlParam::Text(c.created_at),
        SqlParam::Text(c.updated_at),
    ]
}

/// The channel a create request makes: enabled, created and updated `now`.
pub open spec fn spec_new_channel(req: CreateChannel, id: String, now: String) -> Channel {
    Channel {
        id: id,
        name: req.name,
        api_type: req.api_type,
        base_url: req.base_url,
        api_key: req.api_key,
        models: req.models,
        enabled: true,
        priority: req.priority,
        weight: req.weight,
        created_at: now,
        updated_at: now,
    }
}

/// Makes the channel a create request describes.
pub fn new_channel(req: &CreateChannel, id: String, now: String) -> (r: Channel)
    ensures
        r == spec_new_channel(*req, id, now),
        r.id == id,
        r.name == req.name,
        r.api_type == req.api_type,
        r.base_url == req.base_url,
        r.api_key == req.api_key,
        r.models == req.models,
        r.enabled,
        r.priority == req.priority,
        r.weight == req.weight,
        r.created_at == now,
        r.updated_at == now,
{
    Channel {
        id,
        name: req.name.clone(),
        api_type: req.api_type.clone(),
        base_url: req.base_url.clone(),
        api_key: req.api_key.clone(),
        models: req.models.clone(),
        enabled: true,
        priority: req.priority,
        weight: req.weight,
        created_at: now.clone(),
        updated_at: now,
    }
}

/// The parameters a client key is written with.
pub open spec fn spec_api_key_params(k: ApiKey) -> Seq<SqlParam> {
    seq![
        SqlParam::Text(k.id),
        SqlParam::Text(k.name),
        SqlParam::Text(k.key),
        SqlParam::Integer(k.usage_count),
        SqlParam::Integer(k.usage_limit),
        flag_param(k.enabled),
        SqlParam::Text(k.created_at),
    ]
}

/// Writes out a client key's columns.
pub fn api_key_params(k: &ApiKey) -> (r: Vec<SqlParam>)
    ensures
        r@ == spec_api_key_params(*k),
{
    vec![
        SqlParam::Text(k.id.clone()),
        SqlParam::Text(k.name.clone()),
        SqlParam::Text(k.key.clone()),
        SqlParam::Integer(k.usage_count),
        SqlParam::Integer(k.usage_limit),
        flag_param_of(k.enabled),
        SqlParam::Text(k.created_at.clone()),
    ]
}

/// The parameters a request log is written with.
pub open spec fn spec_log_params(l: RequestLog) -> Seq<SqlParam> {
    seq![
        SqlParam::Text(l.id),
        opt_param(l.channel_id),
        opt_param(l.channel_name),
        opt_param(l.model),
        opt_param(l.api_key_id),
        SqlParam::Text(l.request_type),
        SqlParam::Integer(l.status_code as i64),
        SqlParam::Integer(l.latency_ms),
        SqlParam::Integer(l.prompt_tokens),
        SqlParam::Integer(l.completion_tokens),
        opt_param(l.error),
        SqlParam::Text(l.created_at),
    ]
}

/// Writes out a request log's columns.
pub fn log_params(l: &RequestLog) -> (r: Vec<SqlParam>)
    ensures
        r@ == spec_log_params(*l),
{
    vec![
        SqlParam::Text(l.id.clone()),
        opt_text_param(&l.channel_id),
        opt_text_param(&l.channel_name),
        opt_text_param(&l.model),
        opt_text_param(&l.api_key_id),
        SqlParam::Text(l.request_type.clone()),
        SqlParam::Integer(l.status_code as i64),
        SqlParam::Integer(l.latency_ms),
        SqlParam::Integer(l.prompt_tokens),
        SqlParam::Integer(l.completion_tokens),
        opt_text_param(&l.error),
        SqlParam::Text(l.created_at.clone()),
    ]
}

/// The parameters the settings are written with.
pub open spec fn spec_settings_params(s: Settings) -> Seq<SqlParam> {
    seq![
        SqlParam::Integer(s.circuit_breaker_threshold as i64),
        SqlParam::Integer(s.circuit_breaker_reset_time as i64),
        SqlParam::Integer(s.retry_times as i64),
        SqlParam::Integer(s.timeout as i64),
        flag_param(s.auto_select_new_models),
        SqlParam::Integer(s.max_tokens_per_month),
        SqlParam::Text(s.default_model),
    ]
}

/// Writes out the settings' columns.
pub fn settings_params(s: &Settings) -> (r: Vec<SqlParam>)
    ensures
        r@ == spec_settings_params(*s),
{
    vec![
        SqlParam::Integer(s.circuit_breaker_threshold as i64),
        SqlParam::Integer(s.circuit_breaker_reset_time as i64),
        SqlParam::Integer(s.retry_times as i64),
        SqlParam::Integer(s.timeout as i64),
        flag_param_of(s.auto_select_new_models),
        SqlParam::Integer(s.max_tokens_per_month),
        SqlParam::Text(s.default_model.clone()),
    ]
}

/// A row whose every column is of its kind reads without error.
proof fn lemma_row_fits(row: Seq<SqlValue>, kinds: Seq<ColumnKind>, i: nat)
    requires
        row.len() == kinds.len(),
        forall|j: int| i <= j < kinds.len() ==> column_error(row[j], kinds[j], j) is None,
    ensures
        first_error(row, kinds, i) is None,
    decreases kinds.len() - i,
{
    if i < kinds.len() {
        lemma_row_fits(row, kinds, i + 1);
    }
}

/// A channel written with its parameters reads back as the same channel.
pub proof fn lemma_channel_reads_back(c: Channel)
    ensures
        Channel::spec_from_row(stored_row(spec_channel_params(c))) == Ok::<Channel, DbError>(c),
{
    let row = stored_row(spec_channel_params(c));
    lemma_row_fits(row, channel_kinds(), 0);
}

/// A client key written with its parameters reads back as the same key.
pub proof fn lemma_api_key_reads_back(k: ApiKey)
    ensures
        ApiKey::spec_from_row(stored_row(spec_api_key_params(k))) == Ok::<ApiKey, DbError>(k),
{
    let row = stored_row(spec_api_key_params(k));
    lemma_row_fits(row, api_key_kinds(), 0);
}

/// A request log written with its parameters reads back as the same log.
pub proof fn lemma_log_reads_back(l: RequestLog)
    ensures
        RequestLog::spec_from_row(stored_row(spec_log_params(l))) == Ok::<RequestLog, DbError>(l),
{
    let row = stored_row(spec_log_params(l));
    lemma_row_fits(row, log_kinds(), 0);
}

/// Settings written with their parameters read back as the same settings.
pub proof fn lemma_settings_read_back(s: Settings)
    ensures
        Settings::spec_from_row(stored_row(spec_settings_params(s))) == Ok::<Settings, DbError>(s),
{
    let row = stored_row(spec_settings_params(s));
    lemma_row_fits(row, settings_kinds(), 0);
}

/// A channel is written with each field in its own column, in the order of
/// `SQL_INSERT_CHANNEL`: id, name, api_type, base_url, api_key, models,
/// enabled, priority, weight, created_at, updated_at; the order its rows are
/// read in.
pub proof fn lemma_channel_written_columns(c: Channel)
    ensures
        ({
            let row = stored_row(spec_channel_params(c));
            &&& row.len() == 11
            &&& row[0] == SqlValue::Text(c.id)
            &&& row[1] == SqlValue::Text(c.name)
            &&& row[2] == SqlValue::Text(c.api_type)
            &&& row[3] == SqlValue::Text(c.base_url)
            &&& row[4] == SqlValue::Text(c.api_key)
            &&& row[5] == SqlValue::Text(c.models)
            &&& row[6] matches SqlValue::Integer(n) && (n != 0) == c.enabled
            &&& row[7] == SqlValue::Integer(c.priority as i64)
            &&& row[8] == SqlValue::Integer(c.weight as i64)
            &&& row[9] == SqlValue::Text(c.created_at)
            &&& row[10] == SqlValue::Text(c.updated_at)
        }),
{
    let row = stored_row(spec_channel_params(c));
    lemma_channel_reads_back(c);
    lemma_channel_columns(row);
}

/// A client key is written with each field in its own column, in the order
/// of `SQL_INSERT_KEY`: id, name, key, usage_count, usage_limit, enabled,
/// created_at; the order its rows are read in.
pub proof fn lemma_api_key_written_columns(k: ApiKey)
    ensures
        ({
            let row = stored_row(spec_api_key_params(k));
            &&& row.len() == 7
            &&& row[0] == SqlValue::Text(k.id)
            &&& row[1] == SqlValue::Text(k.name)
            &&& row[2] == SqlValue::Text(k.key)
            &&& row[3] == SqlValue::Integer(k.usage_count)
            &&& row[4] == SqlValue::Integer(k.usage_limit)
            &&& row[5] matches SqlValue::Integer(n) && (n != 0) == k.enabled
            &&& row[6] == SqlValue::Text(k.created_at)
        }),
{
    let row = stored_row(spec_api_key_params(k));
    lemma_api_key_reads_back(k);
    lemma_api_key_columns(row);
}

/// A request log is written with each field in its own column, in the order
/// of `SQL_INSERT_LOG`: id, channel_id, channel_name, model, api_key_id,
/// request_type, status_code, latency_ms, prompt_tokens, completion_tokens,
/// error, created_at; the order its rows are read in.
pub proof fn lemma_log_written_columns(l: RequestLog)
    ensures
        ({
            let row = stored_row(spec_log_params(l));
            &&& row.len() == 12
            &&& row[0] == SqlValue::Text(l.id)
            &&& row[1] == match l.channel_id { Some(t) => SqlValue::Text(t), None => SqlValue::Null }
            &&& row[2] == match l.channel_name { Some(t) => SqlValue::Text(t), None => SqlValue::Null }
            &&& row[3] == match l.model { Some(t) => SqlValue::Text(t), None => SqlValue::Null }
            &&& row[4] == match l.api_key_id { Some(t) => SqlValue::Text(t), None => SqlValue::Null }
            &&& row[5] == SqlValue::Text(l.request_type)
            &&& row[6] == SqlValue::Integer(l.status_code as i64)
            &&& row[7] == SqlValue::Integer(l.latency_ms)
            &&& row[8] == SqlValue::Integer(l.prompt_tokens)
            &&& row[9] == SqlValue::Integer(l.completion_tokens)
            &&& row[10] == match l.error { Some(t) => SqlValue::Text(t), None => SqlValue::Null }
            &&& row[11] == SqlValue::Text(l.created_at)
        }),
{
    let row = stored_row(spec_log_params(l));
    lemma_log_reads_back(l);
    lemma_log_columns(row);
}

/// The settings are written with each field in its own column, in the order
/// of `SQL_UPDATE_SETTINGS`: circuit_breaker_threshold,
/// circuit_breaker_reset_time, retry_times, timeout, auto_select_new_models,
/// max_tokens_per_month, default_model; the order they are read in.
pub proof fn lemma_settings_written_columns(s: Settings)
    ensures
        ({
            let row = stored_row(spec_settings_params(s));
            &&& row.len() == 7
            &&& row[0] == SqlValue::Integer(s.circuit_breaker_threshold as i64)
            &&& row[1] == SqlValue::Integer(s.circuit_breaker_reset_time as i64)
            &&& row[2] == SqlValue::Integer(s.retry_times as i64)
            &&& row[3] == SqlValue::Integer(s.timeout as i64)
            &&& row[4] matches SqlValue::Integer(n) && (n != 0) == s.auto_select_new_models
            &&& row[5] == SqlValue::Integer(s.max_tokens_per_month)
            &&& row[6] == SqlValue::Text(s.default_model)
        }),
{
    let row = stored_row(spec_settings_params(s));
    lemma_settings_read_back(s);
    lemma_settings_columns(row);
}

/// A channel made from a create request carries each field of the request,
/// is enabled, has the given id, and was created and updated at `now`.
pub proof fn lemma_new_channel_fields(req: CreateChannel, id: String, now: String)
    ensures
        spec_new_channel(req, id, now).id == id,
        spec_new_channel(req, id, now).name == req.name,
        spec_new_channel(req, id, now).api_type == req.api_type,
        spec_new_channel(req, id, now).base_url == req.base_url,
        spec_new_channel(req, id, now).api_key == req.api_key,
        spec_new_channel(req, id, now).models == req.models,
        spec_new_channel(req, id, now).enabled,
        spec_new_channel(req, id, now).priority == req.priority,
        spec_new_channel(req, id, now).weight == req.weight,
        spec_new_channel(req, id, now).created_at == now,
        spec_new_channel(req, id, now).updated_at == now,
{
}

} // verus!
