use async_std::future::timeout;
use async_std::task::{block_on, sleep};
use resilient_rs::config::ExecConfig;
use resilient_rs::execution::{settle_race, ExecError};
use std::time::Duration;

type Producer = fn() -> Result<String, String>;

fn race_slow_operation(
    timeout_ms: u64,
    work_ms: u64,
    config: &ExecConfig<Producer>,
) -> Result<String, ExecError<String>> {
    let operation = async move {
        sleep(Duration::from_millis(work_ms)).await;
        Ok::<String, String>("success".to_string())
    };
    let raced = block_on(timeout(Duration::from_millis(timeout_ms), operation)).ok();
    settle_race(raced, config)
}

#[test]
fn fallback_replaces_a_late_result() {
    let mut config: ExecConfig<Producer> = ExecConfig::new(50);
    config.with_fallback(|| Ok("fallback result".to_string()));
    let result = race_slow_operation(config.timeout_duration, 100, &config);
    assert_eq!(result, Ok("fallback result".to_string()));
}

#[test]
fn late_result_without_fallback_times_out() {
    let config: ExecConfig<Producer> = ExecConfig::new(50);
    let result = race_slow_operation(config.timeout_duration, 100, &config);
    assert_eq!(result, Err(ExecError::TimedOut));
}

#[test]
fn result_in_time_is_kept() {
    let mut config: ExecConfig<Producer> = ExecConfig::new(200);
    config.with_fallback(|| Ok("fallback result".to_string()));
    let result = race_slow_operation(config.timeout_duration, 10, &config);
    assert_eq!(result, Ok("success".to_string()));
}

#[test]
fn operation_error_in_time_is_kept() {
    let config: ExecConfig<Producer> = ExecConfig::new(100);
    let result = settle_race(Some(Err("immediate failure".to_string())), &config);
    assert_eq!(result, Err(ExecError::Operation("immediate failure".to_string())));
}

#[test]
fn failing_fallback_reports_its_error() {
    let mut config: ExecConfig<Producer> = ExecConfig::new(10);
    config.with_fallback(|| Err("fallback failed".to_string()));
    let result = settle_race(None, &config);
    assert_eq!(result, Err(ExecError::Fallback("fallback failed".to_string())));
}

#[test]
fn fallback_runs_only_after_timeout() {
    let mut config: ExecConfig<fn() -> Result<u32, String>> = ExecConfig::new(10);
    config.with_fallback(|| panic!("fallback must not run"));
    let result = settle_race(Some(Ok(5)), &config);
    assert_eq!(result, Ok(5));
}
