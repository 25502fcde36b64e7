//! Configuration of the idle monitor.

use vstd::prelude::*;

use crate::time::{Duration, NANOS_PER_SEC};

verus! {

/// Default idle timer in seconds (5 minutes).
pub const DEFAULT_IDLE_TIMER_SECS: u64 = 5 * 60;

/// Why a timer of no length is rejected.
pub const ZERO_TIMER: &'static str = "beth-idle.timer must be > 0";

/// How long the best block must stay the same before the machine is suspended.
#[derive(Debug, Clone, Copy, PartialEq, Eq, Structural)]
pub struct IdleConfig {
    pub idle_timer: Duration,
}

/// `r` with its error text as a sequence of characters.
pub open spec fn with_error_text<T>(r: Result<T, String>) -> Result<T, Seq<char>> {
    match r {
        Ok(value) => Ok(value),
        Err(message) => Err(message@),
    }
}

/// The configuration for an idle timer, or why there is none.
pub open spec fn configured(idle_timer: Duration) -> Result<IdleConfig, Seq<char>> {
    if idle_timer@ == 0 {
        Err(ZERO_TIMER@)
    } else {
        Ok(IdleConfig { idle_timer })
    }
}

impl IdleConfig {
    /// Whether the monitor can run with this configuration.
    pub open spec fn is_valid(self) -> bool {
        self.idle_timer@ > 0
    }

    /// The configuration with the given timer, if it is valid.
    pub fn new(idle_timer: Duration) -> (res: Result<IdleConfig, String>)
        ensures
            with_error_text(res) == configured(idle_timer),
            idle_timer@ > 0 ==> (res matches Ok(cfg) && cfg.idle_timer == idle_timer),
            idle_timer@ == 0 ==> (res matches Err(message) && message@
                == "beth-idle.timer must be > 0"@),
    {
        let cfg = IdleConfig { idle_timer };
        match cfg.validate() {
            Ok(()) => Ok(cfg),
            Err(message) => Err(message),
        }
    }

    /// Rejects a timer of no length.
    pub fn validate(&self) -> (res: Result<(), String>)
        ensures
            with_error_text(res) == if self.is_valid() {
                Ok::<(), Seq<char>>(())
            } else {
                Err(ZERO_TIMER@)
            },
            res is Ok <==> self.idle_timer@ > 0,
            res matches Err(message) ==> message@ == "beth-idle.timer must be > 0"@,
    {
        if self.idle_timer.is_zero() {
            return Err(ZERO_TIMER.to_string());
        }
        Ok(())
    }
}

impl Default for IdleConfig {
    /// The configuration with the default idle timer.
    fn default() -> (cfg: IdleConfig)
        ensures
            cfg.idle_timer@ == DEFAULT_IDLE_TIMER_SECS * NANOS_PER_SEC,
            cfg.is_valid(),
            cfg.idle_timer@ == 300_000_000_000,
    {
        IdleConfig { idle_timer: Duration::from_secs(DEFAULT_IDLE_TIMER_SECS) }
    }
}

/// A configuration is valid exactly if its timer has a length.
pub proof fn law_valid_means_nonzero(cfg: IdleConfig)
    ensures
        cfg.is_valid() <==> cfg.idle_timer@ != 0,
{
}

/// Every configuration that can be made is valid and holds the timer it was made with.
pub proof fn law_configured_is_valid(idle_timer: Duration)
    ensures
        configured(idle_timer) is Ok <==> idle_timer@ > 0,
        configured(idle_timer) matches Ok(cfg) ==> cfg.is_valid() && cfg.idle_timer == idle_timer,
        configured(idle_timer) matches Err(message) ==> message == "beth-idle.timer must be > 0"@,
{
}

/// Results are seen as they are, with their error as text.
pub proof fn law_results_seen_as_they_are<T>(value: T, message: String)
    ensures
        with_error_text(Ok::<T, String>(value)) == Ok::<T, Seq<char>>(value),
        with_error_text(Err::<T, String>(message)) == Err::<T, Seq<char>>(message@),
{
}

} // verus!
