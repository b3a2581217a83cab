//! A circuit-breaker library: it gates execution of a caller-supplied
//! operation based on that operation's recent failure rate, measured over a
//! rolling time window, and optionally substitutes a fallback value when the
//! operation fails or is rejected.
//!
//! This module is the user-facing entrypoint for circuit breaker usage; the
//! internal structures are available via the other modules.

use vstd::prelude::*;

pub mod circuit_breaker;
pub mod circuit_breaker_stats;
pub mod command;
pub mod error;
pub mod window;

pub use command::Config;
pub use error::CriusError;

verus! {

/// Convenience type alias for function pointers matching the input/output
/// and error types of a circuit breaker.
pub type CommandFn<I, O, E> = fn(I) -> Result<O, E>;

/// Convenience type alias matching the fallback function pointer of a
/// circuit breaker.
pub type FallbackFn<O, E> = fn(E) -> O;

/// A Command is a runnable circuit breaker, constructed either with or
/// without a fallback method that can provide alternative values if the
/// contained calls fail or if the breaker is open.
pub type Command<I, O, E> = command::Command<I, O, E, CommandFn<I, O, E>, FallbackFn<O, E>>;

/// Construct a circuit breaker *without* a fallback function. Fails with
/// `InvalidConfig` exactly when the configured window span,
/// `bucket_size_in_ms * buckets_in_window`, overflows the millisecond
/// range.
pub fn command<I, O, E, F, FB>(config: Config, function: F) -> (r: Result<
    command::Command<I, O, E, F, FB>,
    CriusError,
>) where E: From<CriusError>, F: Fn(I) -> Result<O, E>, FB: Fn(E) -> O
    ensures
        match r {
            Ok(c) => {
                &&& c.wf()
                &&& config.bucket_size_in_ms * config.buckets_in_window <= u64::MAX
                &&& c.spec_breaker()@.config == config
                &&& c.spec_breaker()@.open_time is None
                &&& c.spec_breaker()@.window.buckets == Seq::<window::BucketView>::empty()
                &&& c.spec_cmd() == function
                &&& c.spec_fallback() is None
            },
            Err(e) => {
                &&& e == CriusError::InvalidConfig
                &&& config.bucket_size_in_ms * config.buckets_in_window > u64::MAX
            },
        },
{
    command::Command::define(config, function)
}

/// Construct a circuit breaker *with* a fallback function. Fails with
/// `InvalidConfig` exactly when the configured window span overflows the
/// millisecond range.
pub fn command_with_fallback<I, O, E, F, FB>(
    config: Config,
    function: F,
    fallback: FB,
) -> (r: Result<command::Command<I, O, E, F, FB>, CriusError>) where
    E: From<CriusError>,
    F: Fn(I) -> Result<O, E>,
    FB: Fn(E) -> O,
    ensures
        match r {
            Ok(c) => {
                &&& c.wf()
                &&& config.bucket_size_in_ms * config.buckets_in_window <= u64::MAX
                &&& c.spec_breaker()@.config == config
                &&& c.spec_breaker()@.open_time is None
                &&& c.spec_breaker()@.window.buckets == Seq::<window::BucketView>::empty()
                &&& c.spec_cmd() == function
                &&& c.spec_fallback() == Some(fallback)
            },
            Err(e) => {
                &&& e == CriusError::InvalidConfig
                &&& config.bucket_size_in_ms * config.buckets_in_window > u64::MAX
            },
        },
{
    command::Command::define_with_fallback(config, function, fallback)
}

} // verus!
