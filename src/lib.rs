//! Reading named environment variables as text, with errors that name the
//! variable and an optional fallback for a missing or empty value.
//!
//! The library holds the decisions: what a lookup returns for what the
//! environment gave, when a default applies, and how a failure reads. The
//! environment itself is read by the caller, who hands over the outcome.

pub mod env_vars;
