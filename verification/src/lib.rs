//! Core of a chat-translation relay: content normalization, language
//! classification, mirror tracking with passive expiry, channel
//! subscriptions, and the create/edit/delete decision logic.

pub mod config;
pub mod lang;
pub mod message;
pub mod normalize;
pub mod registry;
pub mod relay;
pub mod shared_map;
pub mod text;
pub mod tracker;
pub mod webhook;
