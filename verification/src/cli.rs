//! Command line arguments of the idle monitor.

use vstd::prelude::*;

use crate::config::{configured, with_error_text, IdleConfig};
use crate::time::Duration;

verus! {

/// The timer that stands for `--beth-idle.timer` without a value.
pub const DEFAULT_MISSING_TIMER: &'static str = "5m";

/// Why no configuration can be had without the flag.
pub const MISSING_TIMER: &'static str = "missing required --beth-idle.timer";

/// The arguments that configure the idle monitor.
#[derive(Debug, Clone, Copy, PartialEq, Eq, Structural)]
pub struct IdleCliArgs {
    /// How long the best block must stay the same before the machine is suspended.
    ///
    /// Activation is implicit: if the flag is absent, the monitor is disabled.
    pub timer: Option<Duration>,
}

/// The configuration that a given flag asks for; an absent flag is an error.
pub open spec fn required_config(timer: Option<Duration>) -> Result<IdleConfig, Seq<char>> {
    match timer {
        Some(timer) => configured(timer),
        None => Err(MISSING_TIMER@),
    }
}

/// The configuration that a flag asks for; an absent flag asks for none.
pub open spec fn optional_config(timer: Option<Duration>) -> Result<
    Option<IdleConfig>,
    Seq<char>,
> {
    match timer {
        Some(timer) => match configured(timer) {
            Ok(cfg) => Ok(Some(cfg)),
            Err(message) => Err(message),
        },
        None => Ok(None),
    }
}

impl IdleCliArgs {
    /// The configuration that the arguments ask for.
    pub fn to_config(&self) -> (res: Result<IdleConfig, String>)
        ensures
            with_error_text(res) == required_config(self.timer),
            match self.timer {
                Some(timer) => if timer@ > 0 {
                    res matches Ok(cfg) && cfg.idle_timer == timer
                } else {
                    res matches Err(message) && message@ == "beth-idle.timer must be > 0"@
                },
                None => res matches Err(message) && message@
                    == "missing required --beth-idle.timer"@,
            },
    {
        match self.timer {
            Some(timer) => IdleConfig::new(timer),
            None => Err(MISSING_TIMER.to_string()),
        }
    }

    /// The configuration that the arguments ask for, `None` where the monitor is disabled.
    pub fn to_option_config(&self) -> (res: Result<Option<IdleConfig>, String>)
        ensures
            with_error_text(res) == optional_config(self.timer),
            match self.timer {
                Some(timer) => if timer@ > 0 {
                    res matches Ok(Some(cfg)) && cfg.idle_timer == timer
                } else {
                    res matches Err(message) && message@ == "beth-idle.timer must be > 0"@
                },
                None => res matches Ok(None),
            },
    {
        if self.timer.is_none() {
            return Ok(None);
        }
        match self.to_config() {
            Ok(cfg) => Ok(Some(cfg)),
            Err(message) => Err(message),
        }
    }
}

/// Activation is implicit: the monitor is disabled exactly when the flag is absent.
pub proof fn law_activation_is_implicit(timer: Option<Duration>)
    ensures
        optional_config(timer) == Ok::<Option<IdleConfig>, Seq<char>>(None) <==> timer is None,
{
}

/// Every timer with a length is taken as it is given, whichever conversion is asked for.
pub proof fn law_given_timer_is_taken(timer: Duration)
    requires
        timer@ > 0,
    ensures
        required_config(Some(timer)) matches Ok(cfg) && cfg.idle_timer == timer,
        optional_config(Some(timer)) matches Ok(Some(cfg)) && cfg.idle_timer == timer,
{
}

/// A timer without a length is refused by both conversions, an absent flag only by the one
/// that needs it; each says why.
pub proof fn law_refusals(timer: Duration)
    requires
        timer@ == 0,
    ensures
        required_config(Some(timer)) == Err::<IdleConfig, Seq<char>>(
            "beth-idle.timer must be > 0"@,
        ),
        optional_config(Some(timer)) == Err::<Option<IdleConfig>, Seq<char>>(
            "beth-idle.timer must be > 0"@,
        ),
        required_config(None) == Err::<IdleConfig, Seq<char>>(
            "missing required --beth-idle.timer"@,
        ),
{
}

/// Where the flag is given, both conversions agree.
pub proof fn law_conversions_agree(timer: Duration)
    ensures
        optional_config(Some(timer)) == match required_config(Some(timer)) {
            Ok(cfg) => Ok(Some(cfg)),
            Err(message) => Err(message),
        },
{
}

} // verus!
