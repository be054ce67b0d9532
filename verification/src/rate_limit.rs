//! Rate limiting: per-kind limits, Redis keys, and the decisions of the
//! counter check (the Redis round trips themselves are made by the caller).
use vstd::prelude::*;
use crate::ids::{uuid_string, uuid_text};

verus! {

/// How many requests a window admits, and how long the window lasts.
#[derive(Debug, Clone, Copy, PartialEq, Eq)]
pub struct RateLimitConfig {
    /// Maximum number of requests allowed.
    pub max_requests: u32,
    /// Time window in seconds.
    pub window_seconds: u64,
}

impl RateLimitConfig {
    /// A configuration with the given limit and window.
    pub fn new(max_requests: u32, window_seconds: u64) -> (c: Self)
        ensures
            c.max_requests == max_requests,
            c.window_seconds == window_seconds,
    {
        RateLimitConfig { max_requests, window_seconds }
    }
}

/// The kinds of rate-limited actions.
#[derive(Debug, Clone, Copy, PartialEq, Eq)]
pub enum RateLimitType {
    /// API requests (200/second)
    ApiRequest,
    /// Messages (30/second)
    Message,
    /// WebSocket messages (1000/minute)
    WebSocket,
    /// Device pairing code generation (5/minute)
    DevicePairingGenerate,
    /// Device pairing code verification (10/minute per IP)
    DevicePairingVerify,
}

/// The limit and window of each kind of action.
pub open spec fn config_of(t: RateLimitType) -> (u32, u64) {
    match t {
        RateLimitType::ApiRequest => (200, 1),
        RateLimitType::Message => (30, 1),
        RateLimitType::WebSocket => (1000, 60),
        RateLimitType::DevicePairingGenerate => (5, 60),
        RateLimitType::DevicePairingVerify => (10, 60),
    }
}

/// The key segment of each kind of action.
pub open spec fn suffix_of(t: RateLimitType) -> Seq<char> {
    match t {
        RateLimitType::ApiRequest => "api"@,
        RateLimitType::Message => "message"@,
        RateLimitType::WebSocket => "ws"@,
        RateLimitType::DevicePairingGenerate => "device_pair_gen"@,
        RateLimitType::DevicePairingVerify => "device_pair_verify"@,
    }
}

impl RateLimitType {
    /// The limit and window of this kind of action.
    pub fn config(&self) -> (c: RateLimitConfig)
        ensures
            (c.max_requests, c.window_seconds) == config_of(*self),
    {
        match self {
            RateLimitType::ApiRequest => RateLimitConfig::new(200, 1),
            RateLimitType::Message => RateLimitConfig::new(30, 1),
            RateLimitType::WebSocket => RateLimitConfig::new(1000, 60),
            RateLimitType::DevicePairingGenerate => RateLimitConfig::new(5, 60),
            RateLimitType::DevicePairingVerify => RateLimitConfig::new(10, 60),
        }
    }

    /// The key segment of this kind of action.
    pub fn key_suffix(&self) -> (s: &'static str)
        ensures
            s@ == suffix_of(*self),
    {
        match self {
            RateLimitType::ApiRequest => "api",
            RateLimitType::Message => "message",
            RateLimitType::WebSocket => "ws",
            RateLimitType::DevicePairingGenerate => "device_pair_gen",
            RateLimitType::DevicePairingVerify => "device_pair_verify",
        }
    }
}

/// Key of a user's counter: `openchat:ratelimit:{suffix}:{user_id}`.
pub fn rate_limit_cache_key(user_id: u128, limit_type: &RateLimitType) -> (k: String)
    ensures
        k@ == "openchat:ratelimit:"@ + suffix_of(*limit_type) + ":"@ + uuid_text(user_id),
{
    let mut s = String::from_str("openchat:ratelimit:");
    s.append(limit_type.key_suffix());
    s.append(":");
    let u = uuid_string(user_id);
    s.append(u.as_str());
    s
}

/// Key of an IP address's counter: `openchat:ratelimit:{suffix}:ip:{ip_addr}`.
pub fn rate_limit_cache_key_by_ip(ip_addr: &str, limit_type: &RateLimitType) -> (k: String)
    ensures
        k@ == "openchat:ratelimit:"@ + suffix_of(*limit_type) + ":ip:"@ + ip_addr@,
{
    let mut s = String::from_str("openchat:ratelimit:");
    s.append(limit_type.key_suffix());
    s.append(":ip:");
    s.append(ip_addr);
    s
}

/// What the check does once it has read the current counter.
#[derive(Debug, Clone, Copy, PartialEq, Eq)]
pub enum RateLimitStep {
    /// The window is used up: read the counter's time to live and refuse.
    Deny,
    /// Count this request: increment the counter, then read its time to live.
    Increment,
    /// First request of a window: set the counter to 1 with the window as expiry.
    Start,
}

/// The step taken for a counter value.
pub open spec fn step_of(current: Option<u32>, max_requests: u32) -> RateLimitStep {
    match current {
        Some(count) => if count >= max_requests {
            RateLimitStep::Deny
        } else {
            RateLimitStep::Increment
        },
        None => RateLimitStep::Start,
    }
}

/// Chooses the step for the counter value read from Redis (`None`: no counter yet).
pub fn rate_limit_step(current: Option<u32>, config: &RateLimitConfig) -> (s: RateLimitStep)
    ensures
        s == step_of(current, config.max_requests),
{
    match current {
        Some(count) => if count >= config.max_requests {
            RateLimitStep::Deny
        } else {
            RateLimitStep::Increment
        },
        None => RateLimitStep::Start,
    }
}

/// A time to live as a reset time: the value read (0 when reading failed), never negative.
pub open spec fn reset_of(ttl: Option<i64>) -> u64 {
    match ttl {
        Some(t) => if t > 0 {
            t as u64
        } else {
            0
        },
        None => 0,
    }
}

fn reset_seconds(ttl: Option<i64>) -> (r: u64)
    ensures
        r == reset_of(ttl),
{
    match ttl {
        Some(t) => if t > 0 {
            t as u64
        } else {
            0
        },
        None => 0,
    }
}

/// The answer when Redis cannot be reached or read: the request is allowed,
/// with the full limit remaining and the full window as reset time.
pub fn fail_open(config: &RateLimitConfig) -> (r: (bool, u32, u64))
    ensures
        r == (true, config.max_requests, config.window_seconds),
{
    (true, config.max_requests, config.window_seconds)
}

/// The answer after a `Deny` step, given the time to live read (`None` if reading failed).
pub fn denied_outcome(ttl: Option<i64>) -> (r: (bool, u32, u64))
    ensures
        r == (false, 0u32, reset_of(ttl)),
{
    (false, 0, reset_seconds(ttl))
}

/// The answer after an `Increment` step, given the incremented count and the time to live read.
pub fn incremented_outcome(config: &RateLimitConfig, new_count: u32, ttl: Option<i64>) -> (r: (
    bool,
    u32,
    u64,
))
    ensures
        r.0,
        r.1 == (if new_count >= config.max_requests {
            0
        } else {
            config.max_requests - new_count
        }),
        r.2 == reset_of(ttl),
{
    (true, config.max_requests.saturating_sub(new_count), reset_seconds(ttl))
}

/// The answer after a `Start` step: one request used, the full window ahead.
pub fn started_outcome(config: &RateLimitConfig) -> (r: (bool, u32, u64))
    ensures
        r.0,
        r.1 == (if config.max_requests == 0 {
            0
        } else {
            config.max_requests - 1
        }),
        r.2 == config.window_seconds,
{
    (true, config.max_requests.saturating_sub(1), config.window_seconds)
}

/// One request against the counter of a window, with Redis doing what the step
/// asks (`INCR` adds one, `SET EX` stores one): whether it is allowed, and the counter after it.
pub open spec fn counter_after(current: Option<u32>, max_requests: u32) -> (bool, Option<u32>) {
    match step_of(current, max_requests) {
        RateLimitStep::Deny => (false, current),
        RateLimitStep::Increment => (true, Some((current.unwrap() + 1) as u32)),
        RateLimitStep::Start => (true, Some(1u32)),
    }
}

/// `n` requests within one window that starts with no counter: how many are
/// allowed, and the counter after them.
pub open spec fn window_run(max_requests: u32, n: nat) -> (nat, Option<u32>)
    decreases n,
{
    if n == 0 {
        (0, None)
    } else {
        let (allowed, counter) = window_run(max_requests, (n - 1) as nat);
        let (ok, next) = counter_after(counter, max_requests);
        (if ok {
            allowed + 1
        } else {
            allowed
        }, next)
    }
}

/// Within one window, a limit of `max_requests` admits exactly the first
/// `max_requests` requests and refuses every later one.
pub proof fn law_window_admits_at_most_the_limit(max_requests: u32, n: nat)
    requires
        max_requests >= 1,
    ensures
        window_run(max_requests, n).0 == (if n <= max_requests {
            n
        } else {
            max_requests as nat
        }),
        n >= 1 ==> window_run(max_requests, n).1 == Some(
            (if n <= max_requests {
                n
            } else {
                max_requests as nat
            }) as u32,
        ),
    decreases n,
{
    if n > 0 {
        law_window_admits_at_most_the_limit(max_requests, (n - 1) as nat);
    }
}

/// A request is allowed exactly when the counter has not reached the limit, and
/// the remaining count reported never exceeds the limit.
pub proof fn law_allowed_iff_under_limit(
    current: Option<u32>,
    config: RateLimitConfig,
    new_count: u32,
    ttl: Option<i64>,
)
    ensures
        (step_of(current, config.max_requests) == RateLimitStep::Deny) <==> (current is Some
            && current.unwrap() >= config.max_requests),
        new_count >= 1 ==> ({
            let r = if new_count >= config.max_requests {
                0
            } else {
                config.max_requests - new_count
            };
            r < config.max_requests || config.max_requests == 0
        }),
{
}

} // verus!
