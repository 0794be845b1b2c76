//! Records stored by the gateway and the requests that create or change them.

use vstd::prelude::*;

verus! {

/// Weight given to a channel when a create request names none.
pub fn default_weight() -> (r: i32)
    ensures
        r == 1,
{
    1
}

/// Name given to an API key when a create request names none.
pub fn default_key_name() -> (r: String)
    ensures
        r@ == "default"@,
{
    String::from_str("default")
}

/// Failures in a row after which a channel's breaker opens.
pub fn default_threshold() -> (r: i32)
    ensures
        r == 5,
{
    5
}

/// Seconds an open breaker waits before it lets a request through again.
pub fn default_reset_time() -> (r: i32)
    ensures
        r == 300,
{
    300
}

/// How often a failed upstream request is retried.
pub fn default_retry() -> (r: i32)
    ensures
        r == 3,
{
    3
}

/// Upstream request timeout in milliseconds.
pub fn default_timeout() -> (r: i32)
    ensures
        r == 60000,
{
    60000
}


/// One model of one channel in the routing pool.
#[derive(Debug, Clone, PartialEq)]
pub struct ApiEntry {
    pub id: String,
    pub channel_id: String,
    pub channel_name: Option<String>,
    pub model: String,
    pub display_name: Option<String>,
    pub enabled: bool,
    pub priority: i32,
    pub sort_index: i32,
    pub weight: i32,
    pub response_ms: Option<String>,
    pub cooldown_until: Option<i64>,
    pub created_at: String,
}

/// Request to add a model of a channel to the pool.
#[derive(Debug, Clone, PartialEq)]
pub struct CreateEntry {
    pub channel_id: String,
    pub model: String,
    pub display_name: Option<String>,
    pub priority: Option<i32>,
}

/// Request to put the pool entries in the given order.
#[derive(Debug, Clone, PartialEq)]
pub struct ReorderEntries {
    pub ordered_ids: Vec<String>,
}

/// Request and token totals shown on the dashboard.
#[derive(Debug, Clone, PartialEq)]
pub struct DashboardStats {
    pub total_requests: i64,
    pub today_requests: i64,
    pub total_prompt_tokens: i64,
    pub total_completion_tokens: i64,
    pub today_prompt_tokens: i64,
    pub today_completion_tokens: i64,
}

/// Number of requests for one model in one time bucket.
#[derive(Debug, Clone, PartialEq)]
pub struct ChartDataPoint {
    pub time: String,
    pub model: String,
    pub value: i64,
}

/// Requests and tokens used by one model.
#[derive(Debug, Clone, PartialEq)]
pub struct ModelRanking {
    pub model: String,
    pub count: i64,
    pub tokens: i64,
}

/// An upstream AI provider.
#[derive(Debug, Clone, PartialEq)]
pub struct Channel {
    pub id: String,
    pub name: String,
    pub api_type: String,
    pub base_url: String,
    pub api_key: String,
    pub models: String,
    pub enabled: bool,
    pub priority: i32,
    pub weight: i32,
    pub created_at: String,
    pub updated_at: String,
}

/// Request to add an upstream provider.
#[derive(Debug, Clone, PartialEq)]
pub struct CreateChannel {
    pub name: String,
    pub api_type: String,
    pub base_url: String,
    pub api_key: String,
    pub models: String,
    pub priority: i32,
    pub weight: i32,
}

/// Request to change some fields of a provider; `None` keeps a field.
#[derive(Debug, Clone, PartialEq)]
pub struct UpdateChannel {
    pub name: Option<String>,
    pub api_type: Option<String>,
    pub base_url: Option<String>,
    pub api_key: Option<String>,
    pub models: Option<String>,
    pub enabled: Option<bool>,
    pub priority: Option<i32>,
    pub weight: Option<i32>,
}

/// A key that clients present to use the gateway.
#[derive(Debug, Clone, PartialEq)]
pub struct ApiKey {
    pub id: String,
    pub name: String,
    pub key: String,
    pub usage_count: i64,
    pub usage_limit: i64,
    pub enabled: bool,
    pub created_at: String,
}

/// Request to issue a client key; a limit of 0 means no limit.
#[derive(Debug, Clone, PartialEq)]
pub struct CreateApiKey {
    pub name: String,
    pub usage_limit: i64,
}

/// One proxied request.
#[derive(Debug, Clone, PartialEq)]
pub struct RequestLog {
    pub id: String,
    pub channel_id: Option<String>,
    pub channel_name: Option<String>,
    pub model: Option<String>,
    pub api_key_id: Option<String>,
    pub request_type: String,
    pub status_code: i32,
    pub latency_ms: i64,
    pub prompt_tokens: i64,
    pub completion_tokens: i64,
    pub error: Option<String>,
    pub created_at: String,
}

/// Counts of logged requests.
#[derive(Debug, Clone, PartialEq)]
pub struct LogStats {
    pub total: i64,
    pub success: i64,
    pub errors: i64,
    pub today: i64,
}

/// Gateway-wide settings.
#[derive(Debug, Clone, PartialEq)]
pub struct Settings {
    pub circuit_breaker_threshold: i32,
    pub circuit_breaker_reset_time: i32,
    pub retry_times: i32,
    pub timeout: i32,
    pub auto_select_new_models: bool,
    pub max_tokens_per_month: i64,
    pub default_model: String,
}

impl Settings {
    /// The settings a fresh installation starts with.
    pub open spec fn is_default(self) -> bool {
        &&& self.circuit_breaker_threshold == 5
        &&& self.circuit_breaker_reset_time == 300
        &&& self.retry_times == 3
        &&& self.timeout == 60000
        &&& self.auto_select_new_models
        &&& self.max_tokens_per_month == 0
        &&& self.default_model@ == Seq::<char>::empty()
    }
}

impl Default for Settings {
    fn default() -> (r: Self)
        ensures
            r.is_default(),
    {
        Settings {
            circuit_breaker_threshold: default_threshold(),
            circuit_breaker_reset_time: default_reset_time(),
            retry_times: default_retry(),
            timeout: default_timeout(),
            auto_select_new_models: true,
            max_tokens_per_month: 0,
            default_model: String::new(),
        }
    }
}

/// Credentials presented at login.
#[derive(Debug, Clone, PartialEq)]
pub struct LoginRequest {
    pub username: String,
    pub password: String,
}

/// Request to replace a user's password.
#[derive(Debug, Clone, PartialEq)]
pub struct ChangePasswordRequest {
    pub old_password: String,
    pub new_password: String,
}

} // verus!
