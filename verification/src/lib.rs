//! The decisions of an OAuth 2.0 authorization-code login that receives its
//! redirect on a loopback listener.
//!
//! A login attempt runs through four stages: the configuration is resolved
//! from the environment, a one-shot listener is bound to the host and port of
//! the redirect URI, the system browser is sent to the provider's
//! authorization URL, and the one callback that follows is traded for an
//! identity token at the provider's token endpoint.
//!
//! This crate decides and computes; it performs no input or output. The
//! attempt is the state machine of [`flow`]: a driver performs each
//! [`Action`] and reports the result as the next [`Event`]. What each stage
//! computes stands in a module of its own ([`config`], [`redirect`],
//! [`authorize`], [`callback`], [`token`]), and [`laws`] states what holds of
//! every run.

pub mod authorize;
pub mod callback;
pub mod config;
pub mod error;
pub mod flow;
pub mod form;
pub mod laws;
pub mod redirect;
pub mod text;
pub mod token;

pub use crate::config::{Environment, OAuthConfig};
pub use crate::error::OAuthError;
pub use crate::flow::{step, Action, Event, FlowState};
