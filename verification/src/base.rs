//! Shared identifiers, status enums and the application error.

use vstd::prelude::*;
use crate::outside::random_uuid_bits;

verus! {

/// Identifies a channel: the 128 bits of a UUID.
#[derive(Debug, Clone, Copy, PartialEq, Eq, Hash, Structural)]
pub struct ChannelId(pub u128);

/// Identifies a project: the 128 bits of a UUID.
#[derive(Debug, Clone, Copy, PartialEq, Eq, Hash, Structural)]
pub struct ProjectId(pub u128);

/// Identifies a job: the 128 bits of a UUID.
#[derive(Debug, Clone, Copy, PartialEq, Eq, Hash, Structural)]
pub struct JobId(pub u128);

/// Identifies an asset: the 128 bits of a UUID.
#[derive(Debug, Clone, Copy, PartialEq, Eq, Hash, Structural)]
pub struct AssetId(pub u128);

/// Identifies a render: the 128 bits of a UUID.
#[derive(Debug, Clone, Copy, PartialEq, Eq, Hash, Structural)]
pub struct RenderId(pub u128);

/// An instant in UTC: whole seconds since the Unix epoch and the nanoseconds past them, as
/// chrono keeps a time (`nanos` reaches past a second only within a leap second).
#[derive(Debug, Clone, Copy, PartialEq, Eq, Hash, Structural)]
pub struct Timestamp {
    pub secs: i64,
    pub nanos: u32,
}

/// The instant of a pair of whole seconds and nanoseconds.
pub open spec fn instant_of(p: (i64, u32)) -> Timestamp {
    Timestamp { secs: p.0, nanos: p.1 }
}

/// A value with its creation and update times.
#[derive(Debug, Clone, PartialEq, Eq)]
pub struct Timestamped<T> {
    pub value: T,
    pub created_at: Timestamp,
    pub updated_at: Timestamp,
}

#[derive(Debug, Clone, Copy, PartialEq, Eq, Structural)]
pub enum JobStatus {
    Queued,
    Running,
    Paused,
    Completed,
    Failed,
    Cancelled,
    Retrying,
    Blocked,
}

#[derive(Debug, Clone, Copy, PartialEq, Eq, Structural)]
pub enum ProviderKind {
    HuggingFace,
    Local,
    ComfyUi,
    Groq,
    Cerebras,
    Together,
    Fireworks,
    DeepInfra,
    Fal,
    Replicate,
    OpenRouter,
    Custom,
}

#[derive(Debug, Clone, Copy, PartialEq, Eq, Structural)]
pub enum ProviderHealth {
    Healthy,
    Degraded,
    RateLimited,
    AuthenticationFailed,
    QuotaExceeded,
    Unavailable,
    Unknown,
}

/// The last known health of one provider; the failure rate is held as the bit pattern of its `f32` (`f32::to_bits`).
#[derive(Debug, Clone, Copy, PartialEq, Eq, Structural)]
pub struct ProviderHealthSnapshot {
    pub provider: ProviderKind,
    pub health: ProviderHealth,
    pub last_probe_at: Option<Timestamp>,
    pub p95_latency_ms: Option<u64>,
    pub failure_rate_bits: u32,
    pub quota_remaining: Option<u64>,
    pub rate_limit_reset_at: Option<Timestamp>,
}

#[derive(Debug, Clone, PartialEq, Eq)]
pub enum GenerationStatus {
    Queued,
    Running,
    Completed,
    Failed,
    Cancelled,
    Retrying,
    Blocked,
    Validated,
    Invalid(String),
}

#[derive(Debug, Clone, PartialEq, Eq)]
pub struct GenerationError {
    pub code: String,
    pub provider: ProviderKind,
    pub retryable: bool,
    pub retry_after_seconds: Option<u64>,
    pub details: String,
}

/// Where an asset came from. The generation parameters are a JSON document.
#[derive(Debug)]
pub struct AssetProvenance {
    pub provider: Option<ProviderKind>,
    pub model: Option<String>,
    pub prompt: Option<String>,
    pub negative_prompt: Option<String>,
    pub generation_parameters: serde_json::Value,
    pub seed: Option<i64>,
    pub prompt_template_id: Option<String>,
    pub parent_assets: Vec<String>,
}

/// The `serde_json` document type, carried through the library unread.
#[verifier::external_type_specification]
#[verifier::external_body]
pub struct ExJsonValue(serde_json::Value);

/// The error that every fallible operation of the studio returns.
#[derive(Debug, Clone, PartialEq, Eq)]
pub struct AppError {
    pub code: String,
    pub message: String,
    pub source: Option<String>,
}

impl AppError {
    /// An error with the given code and message and no source.
    pub fn new(code: &str, message: &str) -> (e: AppError)
        ensures
            e.code@ == code@,
            e.message@ == message@,
            e.source is None,
    {
        AppError { code: code.to_string(), message: message.to_string(), source: None }
    }

    /// The same error with its source set to `source`.
    pub fn with_source(self, source: &str) -> (e: AppError)
        ensures
            e.code == self.code,
            e.message == self.message,
            e.source matches Some(s) && s@ == source@,
    {
        let mut e = self;
        e.source = Some(source.to_string());
        e
    }
}

/// Whether `id` has the version and variant fields of a random (version 4, RFC 4122) UUID.
pub open spec fn is_random_id(id: u128) -> bool {
    (id >> 76u128) & 0xfu128 == 4 && (id >> 62u128) & 0x3u128 == 2
}

/// A fresh random identifier: the bits of a version 4 UUID.
pub fn generate_id() -> (id: u128)
    ensures
        is_random_id(id),
{
    random_uuid_bits()
}

} // verus!
