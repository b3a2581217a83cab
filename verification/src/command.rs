//! The generic command wrapper: configuration, and the runnable circuit
//! breaker that ties operation execution, breaker gating, result recording
//! and fallback substitution together.

use vstd::prelude::*;
use std::marker::PhantomData;
use crate::circuit_breaker::{
    CircuitBreaker, CircuitBreakerView, spec_check_allowed, spec_check_post, spec_outcome_point,
    spec_register_post,
};
use crate::error::CriusError;
use crate::window::BucketView;

verus! {

const DEFAULT_ERROR_THRESHOLD: i32 = 10;

const DEFAULT_ERROR_THRESHOLD_PERCENTAGE: i32 = 50;

const DEFAULT_BUCKETS_IN_WINDOW: u32 = 10;

const DEFAULT_BUCKET_SIZE_IN_MS: u64 = 1000;

const DEFAULT_CIRCUIT_OPEN_MS: u64 = 5000;

const DEFAULT_THREADPOOL_SIZE: i32 = 10;

const DEFAULT_CIRCUIT_BREAKER_ENABLED: bool = true;

/// An immutable snapshot of the breaker's thresholds and window shape,
/// copied by value into the breaker at construction.
#[derive(Copy, Clone, Debug)]
pub struct Config {
    /// Minimum absolute failure count before tripping.
    pub error_threshold: i32,
    /// Minimum failure percentage (0-100) before tripping.
    pub error_threshold_percentage: i32,
    /// Number of time buckets retained in the rolling window.
    pub buckets_in_window: u32,
    /// Duration of one bucket, in milliseconds.
    pub bucket_size_in_ms: u64,
    /// How long the breaker stays open before re-probing, in milliseconds.
    pub circuit_open_ms: u64,
    /// Number of worker threads for callers that run commands off-thread.
    pub threadpool_size: i32,
    /// Bypass all gating when false.
    pub circuit_breaker_enabled: bool,
}

impl Config {
    /// The default configuration.
    pub fn default() -> (r: Config)
        ensures
            r.error_threshold == 10,
            r.error_threshold_percentage == 50,
            r.buckets_in_window == 10,
            r.bucket_size_in_ms == 1000,
            r.circuit_open_ms == 5000,
            r.threadpool_size == 10,
            r.circuit_breaker_enabled == true,
    {
        Config {
            error_threshold: DEFAULT_ERROR_THRESHOLD,
            error_threshold_percentage: DEFAULT_ERROR_THRESHOLD_PERCENTAGE,
            buckets_in_window: DEFAULT_BUCKETS_IN_WINDOW,
            bucket_size_in_ms: DEFAULT_BUCKET_SIZE_IN_MS,
            circuit_open_ms: DEFAULT_CIRCUIT_OPEN_MS,
            threadpool_size: DEFAULT_THREADPOOL_SIZE,
            circuit_breaker_enabled: DEFAULT_CIRCUIT_BREAKER_ENABLED,
        }
    }

    /// A fresh configuration, starting from the defaults; adjust it with the
    /// builder methods.
    pub fn new() -> (r: Config)
        ensures
            r.error_threshold == 10,
            r.error_threshold_percentage == 50,
            r.buckets_in_window == 10,
            r.bucket_size_in_ms == 1000,
            r.circuit_open_ms == 5000,
            r.threadpool_size == 10,
            r.circuit_breaker_enabled == true,
    {
        Config::default()
    }

    pub fn error_threshold(&mut self, error_threshold: i32) -> (r: &mut Config)
        ensures
            *r == (Config { error_threshold, ..*old(self) }),
            *final(self) == *final(r),
    {
        self.error_threshold = error_threshold;
        self
    }

    pub fn error_threshold_percentage(&mut self, error_threshold_percentage: i32) -> (r:
        &mut Config)
        ensures
            *r == (Config { error_threshold_percentage, ..*old(self) }),
            *final(self) == *final(r),
    {
        self.error_threshold_percentage = error_threshold_percentage;
        self
    }

    pub fn buckets_in_window(&mut self, buckets_in_window: u32) -> (r: &mut Config)
        ensures
            *r == (Config { buckets_in_window, ..*old(self) }),
            *final(self) == *final(r),
    {
        self.buckets_in_window = buckets_in_window;
        self
    }

    pub fn bucket_size_in_ms(&mut self, bucket_size_in_ms: u64) -> (r: &mut Config)
        ensures
            *r == (Config { bucket_size_in_ms, ..*old(self) }),
            *final(self) == *final(r),
    {
        self.bucket_size_in_ms = bucket_size_in_ms;
        self
    }

    pub fn circuit_open_ms(&mut self, circuit_open_ms: u64) -> (r: &mut Config)
        ensures
            *r == (Config { circuit_open_ms, ..*old(self) }),
            *final(self) == *final(r),
    {
        self.circuit_open_ms = circuit_open_ms;
        self
    }

    pub fn circuit_breaker_enabled(&mut self, circuit_breaker_enabled: bool) -> (r: &mut Config)
        ensures
            *r == (Config { circuit_breaker_enabled, ..*old(self) }),
            *final(self) == *final(r),
    {
        self.circuit_breaker_enabled = circuit_breaker_enabled;
        self
    }
}

/// The relation one enabled `run` call establishes between the breaker's
/// state before (`pre`) and after (`post`) the call, the caller's input
/// `param` and the returned `res`, witnessed by the clock readings `now1`
/// (taken for the gating decision) and `now2` (taken when the outcome is
/// recorded) and, when execution was allowed, by the operation's own result
/// `opres`:
///
/// - if the breaker allows the call at `now1`, the operation ran, its
///   outcome's tag was registered at `now2`, a success is returned verbatim,
///   and a failure is returned verbatim unless a fallback is configured, in
///   which case the fallback's value is returned as a success;
/// - if the breaker denies the call, the operation did not run, the breaker
///   carries only the decision's own transition, and a rejection error
///   (converted into the caller's error type) is returned, or handed to the
///   fallback when one is configured.
pub open spec fn spec_run_rel<I, O, E: From<CriusError>, F: Fn(I) -> Result<O, E>, FB: Fn(E) -> O>(
    cmd: F,
    fallback: Option<FB>,
    pre: CircuitBreakerView,
    post: CircuitBreakerView,
    param: I,
    res: Result<O, E>,
    now1: u64,
    now2: u64,
    opres: Result<O, E>,
) -> bool {
    if spec_check_allowed(pre, now1) {
        &&& call_ensures(cmd, (param,), opres)
        &&& post == spec_register_post(spec_check_post(pre, now1), now2, spec_outcome_point(opres))
        &&& match opres {
            Ok(_) => res == opres,
            Err(err) => match fallback {
                Some(fb) => exists|o: O| call_ensures(fb, (err,), o) && res == Ok::<O, E>(o),
                None => res == opres,
            },
        }
    } else {
        &&& post == spec_check_post(pre, now1)
        &&& exists|rej: E|
            #[trigger] call_ensures(E::from, (CriusError::ExecutionRejected,), rej) && match fallback {
                Some(fb) => exists|o: O| call_ensures(fb, (rej,), o) && res == Ok::<O, E>(o),
                None => res == Err::<O, E>(rej),
            }
    }
}

/// A runnable circuit breaker: the wrapped operation, an optional fallback,
/// and the breaker gating execution.
#[verifier::reject_recursive_types(I)]
#[verifier::reject_recursive_types(O)]
#[verifier::reject_recursive_types(E)]
pub struct Command<I, O, E, F, FB> where
    E: From<CriusError>,
    F: Fn(I) -> Result<O, E>,
    FB: Fn(E) -> O,
 {
    pub cmd: F,
    pub fallback: Option<FB>,
    phantom_data: PhantomData<I>,
    circuit_breaker: CircuitBreaker,
}

impl<I, O, E, F, FB> Command<I, O, E, F, FB> where
    E: From<CriusError>,
    F: Fn(I) -> Result<O, E>,
    FB: Fn(E) -> O,
 {
    /// The breaker gating this command (model access).
    pub closed spec fn spec_breaker(&self) -> CircuitBreaker {
        self.circuit_breaker
    }

    /// The wrapped operation (model access).
    pub closed spec fn spec_cmd(&self) -> F {
        self.cmd
    }

    /// The configured fallback, if any (model access).
    pub closed spec fn spec_fallback(&self) -> Option<FB> {
        self.fallback
    }

    /// The command's structural invariant.
    pub open spec fn wf(&self) -> bool {
        self.spec_breaker().wf()
    }

    /// Construct a command without a fallback. Fails with `InvalidConfig`
    /// exactly when the configured window span, `bucket_size_in_ms *
    /// buckets_in_window`, overflows the millisecond range.
    pub fn define(cfg: Config, cmd: F) -> (r: Result<Command<I, O, E, F, FB>, CriusError>)
        ensures
            match r {
                Ok(c) => {
                    &&& c.wf()
                    &&& cfg.bucket_size_in_ms * cfg.buckets_in_window <= u64::MAX
                    &&& c.spec_breaker()@.config == cfg
                    &&& c.spec_breaker()@.open_time is None
                    &&& c.spec_breaker()@.window.buckets == Seq::<BucketView>::empty()
                    &&& c.spec_cmd() == cmd
                    &&& c.spec_fallback() is None
                },
                Err(e) => {
                    &&& e == CriusError::InvalidConfig
                    &&& cfg.bucket_size_in_ms * cfg.buckets_in_window > u64::MAX
                },
            },
    {
        match CircuitBreaker::new(cfg) {
            Ok(circuit_breaker) => Ok(
                Command { cmd, fallback: None, phantom_data: PhantomData, circuit_breaker },
            ),
            Err(e) => Err(e),
        }
    }

    /// Construct a command with a fallback. Fails with `InvalidConfig`
    /// exactly when the configured window span overflows the millisecond
    /// range.
    pub fn define_with_fallback(cfg: Config, cmd: F, fallback: FB) -> (r: Result<
        Command<I, O, E, F, FB>,
        CriusError,
    >)
        ensures
            match r {
                Ok(c) => {
                    &&& c.wf()
                    &&& cfg.bucket_size_in_ms * cfg.buckets_in_window <= u64::MAX
                    &&& c.spec_breaker()@.config == cfg
                    &&& c.spec_breaker()@.open_time is None
                    &&& c.spec_breaker()@.window.buckets == Seq::<BucketView>::empty()
                    &&& c.spec_cmd() == cmd
                    &&& c.spec_fallback() == Some(fallback)
                },
                Err(e) => {
                    &&& e == CriusError::InvalidConfig
                    &&& cfg.bucket_size_in_ms * cfg.buckets_in_window > u64::MAX
                },
            },
    {
        match CircuitBreaker::new(cfg) {
            Ok(circuit_breaker) => Ok(
                Command {
                    cmd,
                    fallback: Some(fallback),
                    phantom_data: PhantomData,
                    circuit_breaker,
                },
            ),
            Err(e) => Err(e),
        }
    }

    /// Run the wrapped operation under the breaker's gating.
    ///
    /// When the breaker is disabled by configuration, the operation runs
    /// directly and its result is returned verbatim, with no breaker
    /// bookkeeping. Otherwise the breaker decides; `spec_run_rel` states
    /// exactly what is executed, recorded and returned in each case.
    pub fn run(&mut self, param: I) -> (res: Result<O, E>)
        requires
            old(self).wf(),
            call_requires(old(self).spec_cmd(), (param,)),
            old(self).spec_fallback() matches Some(fb) ==> forall|e: E| call_requires(fb, (e,)),
        ensures
            final(self).wf(),
            final(self).spec_cmd() == old(self).spec_cmd(),
            final(self).spec_fallback() == old(self).spec_fallback(),
            !old(self).spec_breaker()@.config.circuit_breaker_enabled ==> final(self).spec_breaker()
                == old(self).spec_breaker() && call_ensures(old(self).spec_cmd(), (param,), res),
            old(self).spec_breaker()@.config.circuit_breaker_enabled ==> exists|
                now1: u64,
                now2: u64,
                opres: Result<O, E>,
            |
                spec_run_rel(
                    old(self).spec_cmd(),
                    old(self).spec_fallback(),
                    old(self).spec_breaker()@,
                    final(self).spec_breaker()@,
                    param,
                    res,
                    now1,
                    now2,
                    opres,
                ),
    {
        // Run the command if the breaker is disabled:
        let enabled = self.circuit_breaker.config().circuit_breaker_enabled;
        if !enabled {
            return (self.cmd)(param);
        }

        // Execute the command if the breaker is enabled and execution is
        // allowed.
        let now1 = self.circuit_breaker.now_ms();
        let is_allowed = self.circuit_breaker.check_command_allowed_at(now1);
        if is_allowed {
            let result = (self.cmd)(param);
            let ghost g_opres = result;
            let now2 = self.circuit_breaker.now_ms();
            self.circuit_breaker.register_result_at(now2, &result);

            let res: Result<O, E> = match result {
                Ok(value) => Ok(value),
                Err(err) => {
                    // If a fallback is configured, use it on error:
                    if let Some(fallback) = &self.fallback {
                        Ok(fallback(err))
                    } else {
                        Err(err)
                    }
                },
            };
            proof {
                assert(spec_run_rel(
                    old(self).spec_cmd(),
                    old(self).spec_fallback(),
                    old(self).spec_breaker()@,
                    self.spec_breaker()@,
                    param,
                    res,
                    now1,
                    now2,
                    g_opres,
                ));
            }
            res
        } else {
            // If execution is rejected, either run the configured fallback
            // (if present) or propagate the rejection as an error:
            let err = E::from(CriusError::ExecutionRejected);
            let res: Result<O, E> = if let Some(fallback) = &self.fallback {
                Ok(fallback(err))
            } else {
                Err(err)
            };
            proof {
                assert(spec_run_rel(
                    old(self).spec_cmd(),
                    old(self).spec_fallback(),
                    old(self).spec_breaker()@,
                    self.spec_breaker()@,
                    param,
                    res,
                    now1,
                    now1,
                    res,
                ));
            }
            res
        }
    }
}

} // verus!
