use api_switch::db::{
    api_key_text, changed_any, channel_update_params, chart_sql, dashboard_from_counts, find_entry,
    log_stats_from_counts, models_json, next_sort_index, settings_or_default, usable_key,
};
use api_switch::models::{
    default_key_name, default_reset_time, default_retry, default_threshold, default_timeout,
    default_weight, ApiEntry, ApiKey, Channel, Settings, UpdateChannel,
};
use api_switch::sql::{DbError, SqlValue};
use api_switch::writes::{channel_params, new_channel, settings_params};
use api_switch::models::CreateChannel;
use api_switch::sql::SqlParam;
use api_switch::rows::{read_first_row, FromRow};

fn no_update() -> UpdateChannel {
    UpdateChannel {
        name: None,
        api_type: None,
        base_url: None,
        api_key: None,
        models: None,
        enabled: None,
        priority: None,
        weight: None,
    }
}

fn key(count: i64, limit: i64) -> ApiKey {
    ApiKey {
        id: "i".into(),
        name: "n".into(),
        key: "sk-x".into(),
        usage_count: count,
        usage_limit: limit,
        enabled: true,
        created_at: "t".into(),
    }
}

#[test]
fn defaults() {
    assert_eq!(default_weight(), 1);
    assert_eq!(default_key_name(), "default");
    assert_eq!(default_threshold(), 5);
    assert_eq!(default_reset_time(), 300);
    assert_eq!(default_retry(), 3);
    assert_eq!(default_timeout(), 60000);
    let s = Settings::default();
    assert_eq!(
        s,
        Settings {
            circuit_breaker_threshold: 5,
            circuit_breaker_reset_time: 300,
            retry_times: 3,
            timeout: 60000,
            auto_select_new_models: true,
            max_tokens_per_month: 0,
            default_model: String::new(),
        }
    );
}

#[test]
fn update_parameters_keep_left_out_fields() {
    let mut u = no_update();
    u.name = Some("new".into());
    u.enabled = Some(false);
    u.weight = Some(9);
    let ps = channel_update_params(&u, "t1".into(), "c1");
    assert_eq!(
        ps,
        vec![
            SqlParam::Text("new".into()),
            SqlParam::Null,
            SqlParam::Null,
            SqlParam::Null,
            SqlParam::Null,
            SqlParam::Integer(0),
            SqlParam::Null,
            SqlParam::Integer(9),
            SqlParam::Text("t1".into()),
            SqlParam::Text("c1".into()),
        ]
    );
}

#[test]
fn empty_update_only_sets_update_time() {
    let ps = channel_update_params(&no_update(), "t2".into(), "c9");
    assert_eq!(ps.len(), 10);
    assert!(ps[..8].iter().all(|p| *p == SqlParam::Null));
    assert_eq!(ps[8], SqlParam::Text("t2".into()));
    assert_eq!(ps[9], SqlParam::Text("c9".into()));
}

#[test]
fn dashboard_fields_in_query_order() {
    let s = dashboard_from_counts(&[10, 3, 700, 800, 70, 80]);
    assert_eq!(s.total_requests, 10);
    assert_eq!(s.today_requests, 3);
    assert_eq!(s.total_prompt_tokens, 700);
    assert_eq!(s.total_completion_tokens, 800);
    assert_eq!(s.today_prompt_tokens, 70);
    assert_eq!(s.today_completion_tokens, 80);
}

#[test]
fn log_stats_fields_in_query_order() {
    let s = log_stats_from_counts(&[9, 6, 2, 4]);
    assert_eq!((s.total, s.success, s.errors, s.today), (9, 6, 2, 4));
}

#[test]
fn usage_limits() {
    assert_eq!(usable_key(Some(key(0, 0))), Some(key(0, 0)));
    assert_eq!(usable_key(Some(key(1000, 0))), Some(key(1000, 0)));
    assert_eq!(usable_key(Some(key(9, 10))), Some(key(9, 10)));
    assert_eq!(usable_key(Some(key(10, 10))), None);
    assert_eq!(usable_key(Some(key(11, 10))), None);
    assert_eq!(usable_key(Some(key(5, -1))), Some(key(5, -1)));
    assert_eq!(usable_key(None), None);
}

#[test]
fn sort_index_after_largest() {
    assert_eq!(next_sort_index(-1), 0);
    assert_eq!(next_sort_index(41), 42);
    assert_eq!(next_sort_index(i32::MAX), i32::MIN);
}

#[test]
fn changed_rows() {
    assert!(!changed_any(0));
    assert!(changed_any(1));
    assert!(changed_any(3));
}

#[test]
fn client_key_text() {
    let k = api_key_text(&[0u8; 24]);
    assert_eq!(k, format!("sk-{}", "00".repeat(24)));
    let mut b = [0u8; 24];
    b[0] = 0xab;
    b[23] = 0x0f;
    let k = api_key_text(&b);
    assert_eq!(k.len(), 51);
    assert!(k.starts_with("sk-ab00"));
    assert!(k.ends_with("0f"));
}

#[test]
fn chart_queries() {
    assert_eq!(
        chart_sql("day"),
        "SELECT strftime('%Y-%m-%d', created_at) as time, model, COUNT(*) as value FROM logs WHERE model IS NOT NULL GROUP BY time, model ORDER BY time ASC"
    );
    assert_eq!(
        chart_sql("hour"),
        "SELECT strftime('%Y-%m-%d %H:00', created_at) as time, model, COUNT(*) as value FROM logs WHERE model IS NOT NULL GROUP BY time, model ORDER BY time ASC"
    );
    assert_eq!(chart_sql("Day"), chart_sql("hour"));
}

#[test]
fn model_lists_as_json() {
    assert_eq!(models_json(&[]), "[]");
    assert_eq!(models_json(&["gpt-4".to_string()]), "[\"gpt-4\"]");
    assert_eq!(
        models_json(&["a\"b".to_string(), "c\\d".to_string(), "e\nf\u{1}".to_string(), "模型".to_string()]),
        "[\"a\\\"b\",\"c\\\\d\",\"e\\nf\\u0001\",\"模型\"]"
    );
}

#[test]
fn find_entry_by_id() {
    let e = |id: &str| ApiEntry {
        id: id.into(),
        channel_id: "c".into(),
        channel_name: None,
        model: "m".into(),
        display_name: None,
        enabled: true,
        priority: 0,
        sort_index: 0,
        weight: 1,
        response_ms: None,
        cooldown_until: None,
        created_at: "t".into(),
    };
    assert_eq!(find_entry(vec![e("a"), e("b"), e("c")], &"b".to_string()).unwrap().id, "b");
    assert!(matches!(find_entry(vec![e("a")], &"z".to_string()), Err(DbError::EntryNotFound)));
    assert!(matches!(find_entry(vec![], &"z".to_string()), Err(DbError::EntryNotFound)));
}

#[test]
fn settings_fall_back_to_defaults() {
    let stored = vec![vec![
        SqlValue::Integer(7),
        SqlValue::Integer(60),
        SqlValue::Integer(1),
        SqlValue::Integer(1000),
        SqlValue::Integer(0),
        SqlValue::Integer(5000),
        SqlValue::Text("gpt".into()),
    ]];
    let s = settings_or_default(read_first_row::<Settings>(&stored, None));
    assert_eq!(s.circuit_breaker_threshold, 7);
    assert!(!s.auto_select_new_models);
    assert_eq!(s.default_model, "gpt");
    assert_eq!(settings_or_default(read_first_row::<Settings>(&vec![], None)), Settings::default());
    assert_eq!(
        settings_or_default(read_first_row::<Settings>(&vec![vec![SqlValue::Null]], None)),
        Settings::default()
    );
    assert_eq!(settings_or_default(Err(DbError::NoRows)), Settings::default());
}

#[test]
fn written_channel_reads_back() {
    let req = CreateChannel {
        name: "n".into(),
        api_type: "openai".into(),
        base_url: "u".into(),
        api_key: "k".into(),
        models: "[]".into(),
        priority: -4,
        weight: 2,
    };
    let c = new_channel(&req, "id".into(), "now".into());
    assert!(c.enabled);
    assert_eq!(c.created_at, c.updated_at);
    let params = channel_params(c.clone());
    let row: Vec<SqlValue> = params
        .into_iter()
        .map(|p| match p {
            SqlParam::Null => SqlValue::Null,
            SqlParam::Integer(i) => SqlValue::Integer(i),
            SqlParam::Text(s) => SqlValue::Text(s),
        })
        .collect();
    assert_eq!(Channel::from_row(&row).unwrap(), c);
    let sp = settings_params(&Settings::default());
    assert_eq!(sp[4], SqlParam::Integer(1));
}
