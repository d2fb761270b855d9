//! The names most users need, for a single glob import.

pub use crate::env_error::{EnvError, EnvErrorKind, EnvVarError};
pub use crate::env_load::{EnvLoader, EnvLookup, FieldRule, FieldStep, ListRule, MissingPolicy};
pub use crate::retry::{Retryable, RetryArgs, RetryState, RetryStep};
pub use crate::secret::SecretString;
pub use crate::timeout::FromTimeout;
pub use crate::vec_into::VecInto;
