use crius::command::Config;
use crius::error::CriusError;

#[derive(PartialEq, Eq, Copy, Clone, Debug)]
enum TestError {
    Internal,
    External,
}

impl From<CriusError> for TestError {
    fn from(_: CriusError) -> Self {
        TestError::External
    }
}

type TestCommand<I, O> = crius::Command<I, O, TestError>;

fn make_command<I, O>(cfg: Config, f: fn(I) -> Result<O, TestError>) -> TestCommand<I, O> {
    crius::command(cfg, f).unwrap()
}

fn make_command_with_fallback<I, O>(
    cfg: Config,
    f: fn(I) -> Result<O, TestError>,
    fb: fn(TestError) -> O,
) -> TestCommand<I, O> {
    crius::command_with_fallback(cfg, f, fb).unwrap()
}

#[test]
fn runs_command() {
    let mut cmd = make_command::<(), u8>(Config::default(), |_| Ok(5));
    let result = cmd.run(());
    assert_eq!(5, result.unwrap());
}

#[test]
fn runs_command_multiple_times() {
    let mut cmd = make_command::<(), u8>(Config::default(), |_| Ok(5));

    for _ in 0..5 {
        let result = cmd.run(());
        assert_eq!(5, result.unwrap());
    }
}

#[test]
fn runs_command_with_param() {
    let mut cmd = make_command::<u8, u8>(Config::default(), |param| Ok(param));

    let result = cmd.run(5);
    assert_eq!(5, result.unwrap());
}

#[test]
fn rejects_command_if_circuit_open() {
    let mut cmd = make_command::<(), ()>(
        *Config::new().error_threshold(5),
        |_| Err(TestError::Internal),
    );

    for _ in 0..5 {
        let err = cmd.run(()).unwrap_err();
        assert_eq!(TestError::Internal, err); // Fallback by returned error
    }

    let err = cmd.run(()).unwrap_err();
    assert_eq!(TestError::External, err); // Fallback by reject error
}

#[test]
fn returns_fallback_if_err_result_returned() {
    let mut cmd = make_command_with_fallback::<(), u8>(
        Config::default(),
        |_| Err(TestError::Internal),
        |_| 5,
    );

    let result = cmd.run(());
    assert_eq!(5, result.unwrap());
}

#[test]
fn returns_fallback_if_circuit_open() {
    let mut cmd = make_command_with_fallback::<(), u8>(
        *Config::new().error_threshold(5),
        |_| Err(TestError::Internal),
        |_| 5,
    );

    for _ in 0..5 {
        let result = cmd.run(());
        assert_eq!(5, result.unwrap()); // Fallback by returned error
    }

    let result = cmd.run(());
    assert_eq!(5, result.unwrap()); // Fallback by reject error
}

#[test]
fn disabled_breaker_returns_results_verbatim() {
    let mut cmd = make_command::<(), ()>(
        *Config::new().error_threshold(1).circuit_breaker_enabled(false),
        |_| Err(TestError::Internal),
    );

    // The operation keeps running and its own error keeps coming back,
    // regardless of the accumulated failure history.
    for _ in 0..10 {
        let err = cmd.run(()).unwrap_err();
        assert_eq!(TestError::Internal, err);
    }
}

#[test]
fn overflowing_window_span_is_invalid_config() {
    let cfg = *Config::new().bucket_size_in_ms(u64::MAX).buckets_in_window(2);

    let r = crius::command::<(), u8, TestError, _, fn(TestError) -> u8>(cfg, |_| Ok(5));
    assert_eq!(CriusError::InvalidConfig, r.err().unwrap());

    let r = crius::command_with_fallback::<(), u8, TestError, _, _>(cfg, |_| Ok(5), |_| 7);
    assert_eq!(CriusError::InvalidConfig, r.err().unwrap());
}

#[test]
fn define_with_fallback_absorbs_operation_error() {
    let mut cmd = crius::command::Command::define_with_fallback(
        Config::default(),
        (|n| if n > 10 { Err(TestError::Internal) } else { Ok(n * 2) }) as fn(u8) -> Result<u8, TestError>,
        (|_| 4) as fn(TestError) -> u8,
    )
    .unwrap();

    assert_eq!(20, cmd.run(10).unwrap());
    assert_eq!(4, cmd.run(11).unwrap());
}

#[test]
fn config_builders_set_fields() {
    let cfg = *Config::new()
        .error_threshold(3)
        .error_threshold_percentage(40)
        .buckets_in_window(7)
        .bucket_size_in_ms(250)
        .circuit_open_ms(1234)
        .circuit_breaker_enabled(false);

    assert_eq!(3, cfg.error_threshold);
    assert_eq!(40, cfg.error_threshold_percentage);
    assert_eq!(7, cfg.buckets_in_window);
    assert_eq!(250, cfg.bucket_size_in_ms);
    assert_eq!(1234, cfg.circuit_open_ms);
    assert!(!cfg.circuit_breaker_enabled);
}

#[test]
fn default_config_values() {
    let cfg = Config::default();
    assert_eq!(10, cfg.error_threshold);
    assert_eq!(50, cfg.error_threshold_percentage);
    assert_eq!(10, cfg.buckets_in_window);
    assert_eq!(1000, cfg.bucket_size_in_ms);
    assert_eq!(5000, cfg.circuit_open_ms);
    assert_eq!(10, cfg.threadpool_size);
    assert!(cfg.circuit_breaker_enabled);
}

#[test]
fn error_descriptions() {
    assert_eq!(
        "Rejected command execution due to open breaker",
        CriusError::ExecutionRejected.description()
    );
    assert_eq!(
        "Provided circuit breaker configuration was invalid",
        CriusError::InvalidConfig.description()
    );
}
