//! Subscription state machine and polling/failover engine for a blockchain
//! event-ingestion service.
//!
//! `registry` holds the subscriptions and applies commands; `poll` decides
//! what one poll asks for and what its outcome does; `control` checks control
//! requests; `laws` states what holds across these operations.
pub mod block;
pub mod control;
pub mod json;
pub mod laws;
pub mod poll;
pub mod registry;
pub mod subscribe;
pub mod text;
