//! Verified core logic of the OpenChat API server: cache keys, cache metrics,
//! rate limiting, request validation, slash commands, search filters and more.

pub mod text;
pub mod errors;
pub mod ids;
pub mod keys;
pub mod rate_limit;
pub mod metrics;
pub mod tokens;
pub mod patterns;
pub mod search;
pub mod link_preview;
pub mod commands;
pub mod credentials;
pub mod audit;
pub mod polls;
pub mod calls;
pub mod messaging;
pub mod direct_messages;
pub mod message_actions;
pub mod uploads;
pub mod channels;
pub mod workflows;
pub mod paging;
pub mod device_auth;
pub mod accounts;
pub mod admin;
pub mod webhooks;
pub mod config;
pub mod pubsub;
pub mod invalidation;
pub mod pins;
pub mod message_views;
