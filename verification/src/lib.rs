//! Small ergonomics library for backend services: environment-variable
//! configuration loading, retry and timeout policies, singletons, secret
//! strings and route-prefix helpers, with their rules stated and proved.
//!
//! The attribute macros (`#[retry]`, `#[timeout]`, `#[singleton]`,
//! `#[env_config]`, `#[derive(EnvConfig)]`) decide everything through this
//! library: their arguments are read by the `parse_*` functions, their
//! expansions are planned by the `plan_*` and `check_*` functions, and the
//! code they generate runs the retry decisions of [`RetryState`] and the
//! field steps of [`EnvLoader`].

pub mod text;
pub mod whitespace;
pub mod list;
pub mod decimal;
pub mod naming;
pub mod duration;
pub mod macro_args;
pub mod env_error;
pub mod env_config;
pub mod env_load;
pub mod retry;
pub mod timeout;
pub mod singleton;
pub mod secret;
pub mod openapi;
pub mod vec_into;
pub mod prelude;
pub mod runtime;

pub use env_error::{EnvError, EnvErrorKind, EnvVarError};
pub use env_load::{EnvLoader, EnvLookup, FieldRule, FieldStep, ListRule, MissingPolicy};
pub use naming::{env_name_from_field_ident, snake_to_screaming};
pub use retry::{Retryable, RetryArgs, RetryState, RetryStep};
pub use secret::SecretString;
pub use timeout::FromTimeout;
pub use vec_into::VecInto;
