//! A newsletter service, verified: people subscribe, confirm their address through a token
//! that reaches them by email, and receive the issues that are published afterwards.
//!
//! The workflows are state machines that ask their caller to act on the store and on the
//! email transport and take the outcome of each action: `subscriptions::Subscription`,
//! `subscriptions_confirm::Confirmation` and `newsletters::Dispatch`. The same machines run
//! here against a store and a transport held in memory (`router::AppState`), and what they
//! do to both is stated and proved there.

pub mod cli;
pub mod configuration;
pub mod domain;
pub mod email_client;
pub mod error;
pub mod health_check;
pub mod newsletters;
pub mod router;
pub mod store;
pub mod subscriptions;
pub mod subscriptions_confirm;
pub mod telemetry;
pub mod text;
pub mod token;
