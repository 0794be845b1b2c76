use api_switch::db::Database;
use api_switch::models::{
    CreateApiKey, CreateChannel, CreateEntry, RequestLog, Settings, UpdateChannel,
};
use api_switch::sql::DbError;

fn db() -> Database {
    Database::new(":memory:").unwrap()
}

fn create_req(name: &str, priority: i32, weight: i32) -> CreateChannel {
    CreateChannel {
        name: name.into(),
        api_type: "openai".into(),
        base_url: "https://api.example.com".into(),
        api_key: "key".into(),
        models: "[]".into(),
        priority,
        weight,
    }
}

fn log(id: &str, model: Option<&str>, status: i32, created_at: &str, prompt: i64, completion: i64) -> RequestLog {
    RequestLog {
        id: id.into(),
        channel_id: Some("c".into()),
        channel_name: None,
        model: model.map(|m| m.to_string()),
        api_key_id: None,
        request_type: "chat".into(),
        status_code: status,
        latency_ms: 10,
        prompt_tokens: prompt,
        completion_tokens: completion,
        error: None,
        created_at: created_at.into(),
    }
}

#[test]
fn default_user_logs_in() {
    let mut d = db();
    let (id, name) = d.login("root", "admin").unwrap().unwrap();
    assert_eq!(name, "root");
    assert_eq!(id.len(), 36);
    assert_eq!(d.login("root", "wrong").unwrap(), None);
    assert_eq!(d.login("nobody", "admin").unwrap(), None);
}

#[test]
fn password_change() {
    let mut d = db();
    assert!(!d.change_password("root", "wrong", "x").unwrap());
    assert!(d.change_password("root", "admin", "s3cret").unwrap());
    assert_eq!(d.login("root", "admin").unwrap(), None);
    assert!(d.login("root", "s3cret").unwrap().is_some());
}

#[test]
fn sessions() {
    let mut d = db();
    d.store_session("tok", "root", "9999-12-31T00:00:00+00:00").unwrap();
    assert_eq!(d.verify_session("tok").unwrap(), Some("root".to_string()));
    d.store_session("old", "root", "2000-01-01T00:00:00+00:00").unwrap();
    assert_eq!(d.verify_session("old").unwrap(), None);
    d.store_session("tok", "other", "9999-12-31T00:00:00+00:00").unwrap();
    assert_eq!(d.verify_session("tok").unwrap(), Some("other".to_string()));
    d.delete_session("tok").unwrap();
    assert_eq!(d.verify_session("tok").unwrap(), None);
}

#[test]
fn channels_round_trip() {
    let mut d = db();
    let c = d.create_channel(&create_req("A", 1, 2)).unwrap();
    assert_eq!(c.name, "A");
    assert!(c.enabled);
    assert_eq!((c.priority, c.weight), (1, 2));
    assert_eq!(d.get_channel(&c.id).unwrap(), Some(c.clone()));
    assert_eq!(d.get_channel("missing").unwrap(), None);
    let b = d.create_channel(&create_req("B", 5, 1)).unwrap();
    let low = d.create_channel(&create_req("C", 1, 9)).unwrap();
    let ids: Vec<String> = d.list_channels().unwrap().into_iter().map(|c| c.id).collect();
    assert_eq!(ids, vec![b.id.clone(), low.id.clone(), c.id.clone()]);
}

#[test]
fn channel_update_toggle_delete() {
    let mut d = db();
    let c = d.create_channel(&create_req("A", 1, 2)).unwrap();
    let u = UpdateChannel {
        name: Some("renamed".into()),
        api_type: None,
        base_url: None,
        api_key: None,
        models: None,
        enabled: Some(false),
        priority: None,
        weight: Some(7),
    };
    let after = d.update_channel(&c.id, &u).unwrap().unwrap();
    assert_eq!(after.name, "renamed");
    assert!(!after.enabled);
    assert_eq!(after.weight, 7);
    assert_eq!(after.priority, 1);
    assert_eq!(after.base_url, c.base_url);
    assert_eq!(after.created_at, c.created_at);
    assert_eq!(d.update_channel("missing", &u).unwrap(), None);
    assert!(d.toggle_channel(&c.id, true).unwrap());
    assert!(d.get_channel(&c.id).unwrap().unwrap().enabled);
    assert!(!d.toggle_channel("missing", true).unwrap());
    d.update_channel_models(&c.id, &["m1".to_string(), "m\"2".to_string()]).unwrap();
    assert_eq!(d.get_channel(&c.id).unwrap().unwrap().models, "[\"m1\",\"m\\\"2\"]");
    assert!(d.delete_channel(&c.id).unwrap());
    assert!(!d.delete_channel(&c.id).unwrap());
    assert_eq!(d.get_channel(&c.id).unwrap(), None);
}

#[test]
fn entries() {
    let mut d = db();
    let c = d.create_channel(&create_req("Chan", 0, 1)).unwrap();
    let e1 = d
        .create_entry(&CreateEntry { channel_id: c.id.clone(), model: "m1".into(), display_name: None, priority: None })
        .unwrap();
    let e2 = d
        .create_entry(&CreateEntry {
            channel_id: c.id.clone(),
            model: "m2".into(),
            display_name: Some("Two".into()),
            priority: Some(3),
        })
        .unwrap();
    assert_eq!((e1.sort_index, e2.sort_index), (0, 1));
    assert_eq!(e1.channel_name.as_deref(), Some("Chan"));
    assert_eq!((e1.priority, e2.priority), (0, 3));
    assert!(e1.enabled && e2.enabled);
    assert_eq!(e2.display_name.as_deref(), Some("Two"));
    assert_eq!(e1.weight, 1);
    d.reorder_entries(&[e2.id.clone(), e1.id.clone()]).unwrap();
    let list = d.list_entries().unwrap();
    assert_eq!(list.iter().map(|e| e.id.clone()).collect::<Vec<_>>(), vec![e2.id.clone(), e1.id.clone()]);
    assert!(d.toggle_entry(&e1.id, false).unwrap());
    assert!(!d.toggle_entry("missing", false).unwrap());
    d.update_entry_response_ms(&e1.id, "120").unwrap();
    let e = d.list_entries().unwrap().into_iter().find(|e| e.id == e1.id).unwrap();
    assert!(!e.enabled);
    assert_eq!(e.response_ms.as_deref(), Some("120"));
    assert!(d.delete_entry(&e1.id).unwrap());
    assert!(!d.delete_entry(&e1.id).unwrap());
    assert_eq!(d.list_entries().unwrap().len(), 1);
}

#[test]
fn entry_of_unknown_channel_is_refused_by_the_engine() {
    let mut d = db();
    let r = d.create_entry(&CreateEntry { channel_id: "nope".into(), model: "m".into(), display_name: None, priority: None });
    assert!(matches!(r, Err(DbError::Sqlite(_))));
}

#[test]
fn api_keys() {
    let mut d = db();
    let k = d.create_api_key(&CreateApiKey { name: "default".into(), usage_limit: 2 }).unwrap();
    assert!(k.key.starts_with("sk-"));
    assert_eq!(k.key.len(), 51);
    assert_eq!((k.usage_count, k.usage_limit, k.enabled), (0, 2, true));
    assert_eq!(d.list_api_keys().unwrap(), vec![k.clone()]);
    assert_eq!(d.validate_api_key(&k.key).unwrap(), Some(k.clone()));
    d.increment_key_usage(&k.id).unwrap();
    assert!(d.validate_api_key(&k.key).unwrap().is_some());
    d.increment_key_usage(&k.id).unwrap();
    assert_eq!(d.validate_api_key(&k.key).unwrap(), None);
    assert_eq!(d.validate_api_key("sk-unknown").unwrap(), None);
    let free = d.create_api_key(&CreateApiKey { name: "free".into(), usage_limit: 0 }).unwrap();
    for _ in 0..3 {
        d.increment_key_usage(&free.id).unwrap();
    }
    assert!(d.validate_api_key(&free.key).unwrap().is_some());
    assert!(d.toggle_api_key(&free.id, false).unwrap());
    assert_eq!(d.validate_api_key(&free.key).unwrap(), None);
    assert!(!d.toggle_api_key("missing", false).unwrap());
    assert!(d.delete_api_key(&free.id).unwrap());
    assert!(!d.delete_api_key(&free.id).unwrap());
}

#[test]
fn logs_and_stats() {
    let mut d = db();
    d.create_log(&log("1", Some("a"), 200, "2000-01-01T00:00:00Z", 1, 2)).unwrap();
    d.create_log(&log("2", Some("a"), 500, "2000-01-02T00:00:00Z", 3, 4)).unwrap();
    d.create_log(&log("3", Some("b"), 404, "2000-01-02T01:00:00Z", 5, 6)).unwrap();
    d.create_log(&log("4", None, 201, "9999-01-01T00:00:00Z", 7, 8)).unwrap();
    let (page, total) = d.list_logs(2, 1, None, None, None).unwrap();
    assert_eq!(total, 4);
    assert_eq!(page.iter().map(|l| l.id.as_str()).collect::<Vec<_>>(), vec!["3", "2"]);
    assert_eq!(page[0], log("3", Some("b"), 404, "2000-01-02T01:00:00Z", 5, 6));
    let s = d.get_log_stats().unwrap();
    assert_eq!((s.total, s.success, s.errors, s.today), (4, 2, 2, 1));
    let ds = d.get_dashboard_stats().unwrap();
    assert_eq!((ds.total_requests, ds.today_requests), (4, 1));
    assert_eq!((ds.total_prompt_tokens, ds.total_completion_tokens), (16, 20));
    assert_eq!((ds.today_prompt_tokens, ds.today_completion_tokens), (7, 8));
    let rank = d.get_model_ranking(10).unwrap();
    assert_eq!(rank.len(), 2);
    assert_eq!((rank[0].model.as_str(), rank[0].count, rank[0].tokens), ("a", 2, 10));
    assert_eq!(d.get_model_ranking(1).unwrap().len(), 1);
    let days = d.get_chart_data("day").unwrap();
    assert_eq!(days.len(), 3);
    assert_eq!((days[0].time.as_str(), days[0].model.as_str(), days[0].value), ("2000-01-01", "a", 1));
    let hours = d.get_chart_data("hour").unwrap();
    assert_eq!(hours[1].time, "2000-01-02 00:00");
    d.clear_logs().unwrap();
    assert_eq!(d.list_logs(10, 0, Some("c"), Some("a"), Some(200)).unwrap(), (vec![], 0));
}

#[test]
fn settings_store() {
    let mut d = db();
    assert_eq!(d.get_settings().unwrap(), Settings::default());
    let s = Settings {
        circuit_breaker_threshold: 3,
        circuit_breaker_reset_time: 60,
        retry_times: 1,
        timeout: 5000,
        auto_select_new_models: false,
        max_tokens_per_month: 100000,
        default_model: "gpt-4o".into(),
    };
    d.update_settings(&s).unwrap();
    assert_eq!(d.get_settings().unwrap(), s);
}

#[test]
fn unopenable_path_is_an_engine_error() {
    assert!(matches!(Database::new("/nonexistent-dir-for-tests/sub/x.db"), Err(DbError::Sqlite(_))));
}

#[test]
fn created_entry_has_fresh_id() {
    let mut d = db();
    let c = d.create_channel(&create_req("A", 0, 1)).unwrap();
    let e = d
        .create_entry(&CreateEntry { channel_id: c.id.clone(), model: "m".into(), display_name: None, priority: None })
        .unwrap();
    assert_eq!(e.id.len(), 36);
    assert_eq!(e.channel_id, c.id);
    assert_eq!(e.model, "m");
}

#[test]
fn open_then_init_sets_up_the_store() {
    let mut d = Database::open(":memory:").unwrap();
    d.init().unwrap();
    assert!(d.login("root", "admin").unwrap().is_some());
    assert_eq!(d.get_settings().unwrap(), Settings::default());
    d.init().unwrap();
    assert_eq!(d.list_channels().unwrap().len(), 0);
}
