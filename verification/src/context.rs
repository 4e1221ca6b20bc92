//! Update context: the scheduler's configuration, the exit flag, the
//! last fixed-step delta and the input tracker, handed to the application
//! on every update step.
//!
//! All durations are whole nanoseconds of a monotonic clock.

use vstd::prelude::*;

use crate::input::Input;

verus! {

/// Rejected configuration: the fixed-timestep algorithm divides by the
/// target step and clamps against the frame-time ceiling, so neither may
/// be zero.
#[derive(Clone, Copy, Debug, PartialEq, Eq, Structural)]
pub enum ConfigError {
    /// The requested target step duration (or frames-per-second rate) was zero.
    ZeroTargetStep,
    /// The requested maximum frame time was zero.
    ZeroMaxFrameTime,
}

/// The scheduler's configuration: both durations in nanoseconds, both
/// strictly positive.
#[derive(Debug)]
pub(crate) struct TickConfig {
    pub(crate) target_ns: u64,
    pub(crate) max_ns: u64,
}

impl TickConfig {
    #[verifier::type_invariant]
    pub(crate) open spec fn positive(self) -> bool {
        self.target_ns >= 1 && self.max_ns >= 1
    }
}

/// The fixed step that a whole frames-per-second rate asks for, in
/// nanoseconds: one second divided by the rate, floored, but never below
/// one nanosecond (only meaningful for a non-zero rate).
pub open spec fn target_of_fps(fps: u32) -> u64 {
    if 1_000_000_000 as u64 / (fps as u64) >= 1 {
        1_000_000_000 as u64 / (fps as u64)
    } else {
        1
    }
}

/// Update context.
#[derive(Debug)]
pub struct Context {
    pub(crate) cfg: TickConfig,
    pub(crate) exit: bool,
    pub(crate) delta_time: u64,
    /// Input handler.
    pub input: Input,
}

impl Context {
    /// Target duration of one fixed simulation step, in nanoseconds.
    pub open(crate) spec fn target_ns(&self) -> u64 {
        self.cfg.target_ns
    }

    /// Ceiling applied to any single measured elapsed interval, in
    /// nanoseconds.
    pub open(crate) spec fn max_ns(&self) -> u64 {
        self.cfg.max_ns
    }

    /// Whether an update step has requested termination.
    pub open(crate) spec fn exit_flag(&self) -> bool {
        self.exit
    }

    /// The delta handed to the most recent update step, in nanoseconds.
    pub open(crate) spec fn delta_ns(&self) -> u64 {
        self.delta_time
    }

    /// The input tracker carried by this context (spec view of the
    /// `input` field).
    pub open(crate) spec fn tracker(&self) -> Input {
        self.input
    }

    /// Create a new context.
    ///
    /// The update rate is given as whole frames per second, the catch-up
    /// ceiling in nanoseconds; both must be non-zero, or the configuration
    /// is rejected.
    pub fn new(fps: u32, max_frame_time_ns: u64) -> (r: Result<Context, ConfigError>)
        ensures
            (r is Err) <==> (fps == 0 || max_frame_time_ns == 0),
            fps == 0 ==> r == Err::<Context, ConfigError>(ConfigError::ZeroTargetStep),
            fps >= 1 && max_frame_time_ns == 0 ==> r == Err::<Context, ConfigError>(
                ConfigError::ZeroMaxFrameTime,
            ),
            r matches Ok(ctx) ==> ctx.target_ns() == target_of_fps(fps) && ctx.max_ns()
                == max_frame_time_ns && !ctx.exit_flag() && ctx.delta_ns() == 0
                && ctx.tracker().is_fresh(),
    {
        if fps == 0 {
            return Err(ConfigError::ZeroTargetStep);
        }
        if max_frame_time_ns == 0 {
            return Err(ConfigError::ZeroMaxFrameTime);
        }
        let raw: u64 = 1_000_000_000u64 / (fps as u64);
        let target: u64 = if raw >= 1 {
            raw
        } else {
            1
        };
        Ok(
            Context {
                cfg: TickConfig { target_ns: target, max_ns: max_frame_time_ns },
                exit: false,
                delta_time: 0,
                input: Input::new(),
            },
        )
    }

    /// Time between previous and current update, in nanoseconds.
    pub fn frame_time(&self) -> (r: u64)
        ensures
            r == self.delta_ns(),
    {
        self.delta_time
    }

    /// Current target duration of one fixed simulation step, in
    /// nanoseconds.
    pub fn target_frame_time(&self) -> (r: u64)
        ensures
            r == self.target_ns(),
    {
        self.cfg.target_ns
    }

    /// Current ceiling on a single measured elapsed interval, in
    /// nanoseconds.
    pub fn max_frame_time(&self) -> (r: u64)
        ensures
            r == self.max_ns(),
    {
        self.cfg.max_ns
    }

    /// Set the desired (minimum) time between application updates, in
    /// nanoseconds. Zero is rejected, since the scheduler divides by this
    /// duration. A change takes effect on the next tick advance.
    pub fn set_target_frame_time(&mut self, time_ns: u64) -> (r: Result<(), ConfigError>)
        ensures
            time_ns == 0 ==> r == Err::<(), ConfigError>(ConfigError::ZeroTargetStep),
            time_ns == 0 ==> *final(self) == *old(self),
            time_ns >= 1 ==> r == Ok::<(), ConfigError>(()),
            time_ns >= 1 ==> final(self).target_ns() == time_ns,
            time_ns >= 1 ==> final(self).max_ns() == old(self).max_ns(),
            time_ns >= 1 ==> final(self).exit_flag() == old(self).exit_flag(),
            time_ns >= 1 ==> final(self).delta_ns() == old(self).delta_ns(),
            time_ns >= 1 ==> final(self).tracker() == old(self).tracker(),
    {
        if time_ns == 0 {
            return Err(ConfigError::ZeroTargetStep);
        }
        proof {
            use_type_invariant(&self.cfg);
        }
        self.cfg = TickConfig { target_ns: time_ns, max_ns: self.cfg.max_ns };
        Ok(())
    }

    /// Set the desired rate in whole updates per second. Overrides the
    /// target frame time, since they are inversions of each other. Zero is
    /// rejected. A change takes effect on the next tick advance.
    pub fn set_target_fps(&mut self, fps: u32) -> (r: Result<(), ConfigError>)
        ensures
            fps == 0 ==> r == Err::<(), ConfigError>(ConfigError::ZeroTargetStep),
            fps == 0 ==> *final(self) == *old(self),
            fps >= 1 ==> r == Ok::<(), ConfigError>(()),
            fps >= 1 ==> final(self).target_ns() == target_of_fps(fps),
            fps >= 1 ==> final(self).max_ns() == old(self).max_ns(),
            fps >= 1 ==> final(self).exit_flag() == old(self).exit_flag(),
            fps >= 1 ==> final(self).delta_ns() == old(self).delta_ns(),
            fps >= 1 ==> final(self).tracker() == old(self).tracker(),
    {
        if fps == 0 {
            return Err(ConfigError::ZeroTargetStep);
        }
        proof {
            use_type_invariant(&self.cfg);
        }
        let raw: u64 = 1_000_000_000u64 / (fps as u64);
        let target: u64 = if raw >= 1 {
            raw
        } else {
            1
        };
        self.cfg = TickConfig { target_ns: target, max_ns: self.cfg.max_ns };
        Ok(())
    }

    /// Set the maximum time between application updates, in nanoseconds:
    /// a single measured elapsed interval is clamped to this ceiling, which
    /// bounds catch-up work after a stall. Zero is rejected. A change takes
    /// effect on the next tick advance.
    pub fn set_max_frame_time(&mut self, time_ns: u64) -> (r: Result<(), ConfigError>)
        ensures
            time_ns == 0 ==> r == Err::<(), ConfigError>(ConfigError::ZeroMaxFrameTime),
            time_ns == 0 ==> *final(self) == *old(self),
            time_ns >= 1 ==> r == Ok::<(), ConfigError>(()),
            time_ns >= 1 ==> final(self).max_ns() == time_ns,
            time_ns >= 1 ==> final(self).target_ns() == old(self).target_ns(),
            time_ns >= 1 ==> final(self).exit_flag() == old(self).exit_flag(),
            time_ns >= 1 ==> final(self).delta_ns() == old(self).delta_ns(),
            time_ns >= 1 ==> final(self).tracker() == old(self).tracker(),
    {
        if time_ns == 0 {
            return Err(ConfigError::ZeroMaxFrameTime);
        }
        proof {
            use_type_invariant(&self.cfg);
        }
        self.cfg = TickConfig { target_ns: self.cfg.target_ns, max_ns: time_ns };
        Ok(())
    }

    /// Exit the application: the driver stops right after the current
    /// update step returns, and every later tick advance does nothing.
    pub fn exit(&mut self)
        ensures
            final(self).exit_flag(),
            final(self).target_ns() == old(self).target_ns(),
            final(self).max_ns() == old(self).max_ns(),
            final(self).delta_ns() == old(self).delta_ns(),
            final(self).tracker() == old(self).tracker(),
    {
        self.exit = true;
    }

    /// Whether an update step has requested termination.
    pub fn exit_requested(&self) -> (r: bool)
        ensures
            r == self.exit_flag(),
    {
        self.exit
    }
}

} // verus!
