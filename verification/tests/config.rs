use beth_idle::cli::{IdleCliArgs, DEFAULT_MISSING_TIMER, MISSING_TIMER};
use beth_idle::config::{DEFAULT_IDLE_TIMER_SECS, ZERO_TIMER};
use beth_idle::time::Duration;
use beth_idle::IdleConfig;

#[test]
fn zero_timer_is_rejected() {
    let err = IdleConfig::new(Duration::from_secs(0)).unwrap_err();
    assert_eq!(err, "beth-idle.timer must be > 0");
    assert_eq!(err, ZERO_TIMER);

    let cfg = IdleConfig { idle_timer: Duration::from_millis(0) };
    assert_eq!(cfg.validate(), Err("beth-idle.timer must be > 0".to_string()));
}

#[test]
fn shortest_timer_is_accepted() {
    let timer = Duration::new(0, 1);
    let cfg = IdleConfig::new(timer).unwrap();
    assert_eq!(cfg.idle_timer, timer);
    assert_eq!(cfg.validate(), Ok(()));
}

#[test]
fn default_timer_is_five_minutes() {
    let cfg = IdleConfig::default();
    assert_eq!(cfg.idle_timer, Duration::from_secs(300));
    assert_eq!(DEFAULT_IDLE_TIMER_SECS, 300);
    assert!(cfg.validate().is_ok());
}

#[test]
fn flag_without_value_means_the_default_timer() {
    let timer = humantime::parse_duration(DEFAULT_MISSING_TIMER).unwrap();
    assert_eq!(timer.as_secs(), DEFAULT_IDLE_TIMER_SECS);
    assert_eq!(timer.subsec_nanos(), 0);
}

#[test]
fn absent_flag_disables_the_monitor() {
    let args = IdleCliArgs { timer: None };
    assert_eq!(args.to_option_config(), Ok(None));
    assert_eq!(args.to_config(), Err("missing required --beth-idle.timer".to_string()));
    assert_eq!(args.to_config().unwrap_err(), MISSING_TIMER);
}

#[test]
fn given_flag_configures_the_monitor() {
    let args = IdleCliArgs { timer: Some(Duration::from_secs(60)) };
    let cfg = IdleConfig { idle_timer: Duration::from_secs(60) };
    assert_eq!(args.to_config(), Ok(cfg));
    assert_eq!(args.to_option_config(), Ok(Some(cfg)));
}

#[test]
fn given_zero_flag_is_an_error() {
    let args = IdleCliArgs { timer: Some(Duration::from_secs(0)) };
    assert_eq!(args.to_config(), Err("beth-idle.timer must be > 0".to_string()));
    assert_eq!(args.to_option_config(), Err("beth-idle.timer must be > 0".to_string()));
}
