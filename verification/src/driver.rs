//! The cycle driver: a fixed-timestep frame scheduler composed with the
//! input tracker's decay pass and the application's callbacks.
//!
//! Once per host idle tick, [`Scheduler::advance_tick`] converts the
//! measured elapsed wall time into zero or more fixed simulation steps:
//! the elapsed interval is clamped to the configured ceiling, banked in an
//! accumulator, and spent in whole target-step increments. Every spent
//! step invokes the update callback and then the render callback with an
//! interpolation factor; the tracker's decay pass runs exactly once per
//! tick, after the first update of that tick.

use vstd::prelude::*;

use crate::context::Context;
use crate::input::Input;
use crate::input::RawEvent;
use crate::input::ScrollDelta;
use crate::input::buttons_after;
use crate::input::cursor_after;
use crate::input::logical_after;
use crate::input::mods_after;
use crate::input::physical_after;
use crate::input::scroll_after;
use crate::tristate::decayed;

verus! {

/// Any failure returned by a host-supplied update or render callback:
/// opaque to the scheduler, carrying a descriptive message.
#[derive(Clone, Debug)]
pub struct AppError {
    /// Human-readable description of the failure.
    pub message: String,
}

/// What one tick advance tells the host: keep delivering ticks, stop
/// because an update step requested exit, or stop because a callback
/// failed.
#[derive(Debug)]
pub enum TickSignal {
    /// Keep delivering ticks.
    Continue,
    /// An update step requested termination.
    Exit,
    /// An update or render callback failed; the tick was aborted.
    Failed(AppError),
}

/// Fractional progress, between the last completed simulation step and
/// the next one, at which a frame is rendered: the fraction
/// `numerator_ns / denominator_ns`, always in `[0, 1)`.
#[derive(Clone, Copy, Debug, PartialEq, Eq, Structural)]
pub struct BlendFactor {
    /// Nanoseconds into the next step: the accumulator remainder, reduced
    /// modulo the step.
    pub numerator_ns: u64,
    /// Nanoseconds of one whole step: the target step duration.
    pub denominator_ns: u64,
}

impl BlendFactor {
    /// A factor is proper when it lies in `[0, 1)`.
    pub open spec fn proper(&self) -> bool {
        self.numerator_ns < self.denominator_ns
    }
}

/// Application trait.
///
/// The two spec functions are ghost history: they expose, to contracts
/// only, how many update invocations the application has received and the
/// blending factors of its render invocations. The driver's contract is
/// stated over them; they impose nothing at runtime.
pub trait App {
    /// Ghost history: the number of update invocations received so far.
    spec fn updates(&self) -> nat;

    /// Ghost history: the blending factor of every render invocation
    /// received so far, oldest first.
    spec fn blends(&self) -> Seq<BlendFactor>;

    /// Application update: one fixed simulation step. The rate of updates
    /// can be set through [`Context`]. The update may reconfigure the
    /// scheduler and may request exit, but the input tracker and the step
    /// delta are read-only for it: the driver owns the decay pass.
    fn update(&mut self, ctx: &mut Context) -> (r: Result<(), AppError>)
        ensures
            final(self).updates() == old(self).updates() + 1,
            final(self).blends() == old(self).blends(),
            final(ctx).tracker() == old(ctx).tracker(),
            final(ctx).delta_ns() == old(ctx).delta_ns(),
    ;

    /// Application render: called once for every fixed update step, with
    /// a proper blending factor.
    fn render(&mut self, blending_factor: BlendFactor) -> (r: Result<(), AppError>)
        requires
            blending_factor.proper(),
        ensures
            final(self).updates() == old(self).updates(),
            final(self).blends() == old(self).blends().push(blending_factor),
    ;

    /// Custom event handler if needed.
    fn handle(&mut self, _event: &RawEvent) -> (r: Result<(), AppError>)
        ensures
            final(self).updates() == old(self).updates(),
            final(self).blends() == old(self).blends(),
    {
        Ok(())
    }
}

/// One tick's time budget: the measured elapsed interval clamped to the
/// ceiling, added (saturating) to the accumulator carried over from
/// earlier ticks.
pub open spec fn tick_budget(acc: u64, elapsed_ns: u64, max_ns: u64) -> u64 {
    let clamped = if elapsed_ns > max_ns {
        max_ns
    } else {
        elapsed_ns
    };
    if acc + clamped > u64::MAX {
        u64::MAX
    } else {
        (acc + clamped) as u64
    }
}

/// How many whole fixed steps a budget yields: one for each subtraction
/// while the accumulator still exceeds the target step.
pub open spec fn steps_of(budget: u64, target_ns: u64) -> nat
    decreases budget,
{
    if target_ns >= 1 && budget > target_ns {
        steps_of((budget - target_ns) as u64, target_ns) + 1
    } else {
        0
    }
}

/// What the accumulator holds once a budget is fully spent.
pub open spec fn remainder_of(budget: u64, target_ns: u64) -> u64
    decreases budget,
{
    if target_ns >= 1 && budget > target_ns {
        remainder_of((budget - target_ns) as u64, target_ns)
    } else {
        budget
    }
}

/// The interpolation numerator handed to the `k`-th render call (0-based)
/// of a tick: the accumulator after that step's subtraction, reduced
/// modulo the step.
pub open spec fn blend_numerator(budget: u64, target_ns: u64, k: int) -> int {
    (budget - (k + 1) * target_ns) % (target_ns as int)
}

/// The relation between the input tracker before a tick's single decay
/// pass and after it.
pub open spec fn tracker_decayed(pre: Input, post: Input) -> bool {
    &&& post.physical_map() == decayed(pre.physical_map())
    &&& post.logical_map() == decayed(pre.logical_map())
    &&& post.button_map() == decayed(pre.button_map())
    &&& post.mods_value() == pre.mods_value()
    &&& post.cursor_value() == pre.cursor_value()
    &&& post.scroll_value() == ScrollDelta::neutral()
}

/// Fixed-timestep frame scheduler: owns the accumulated-time remainder
/// that carries unspent wall time from one host idle tick to the next.
#[derive(Debug)]
pub struct Scheduler {
    accumulated_ns: u64,
}

impl Scheduler {
    /// The banked time not yet spent on fixed steps, in nanoseconds.
    pub closed spec fn accumulated(&self) -> u64 {
        self.accumulated_ns
    }

    /// A scheduler with an empty accumulator.
    pub fn new() -> (r: Scheduler)
        ensures
            r.accumulated() == 0,
    {
        Scheduler { accumulated_ns: 0 }
    }

    /// The banked time not yet spent on fixed steps, in nanoseconds.
    pub fn accumulated_time(&self) -> (r: u64)
        ensures
            r == self.accumulated(),
    {
        self.accumulated_ns
    }

    /// Advance the cycle by one host idle tick that measured
    /// `elapsed_ns` nanoseconds of wall time since the previous tick.
    ///
    /// The elapsed interval is clamped to the frame-time ceiling and
    /// banked; while the bank exceeds the target step, one update step
    /// runs (with the tracker's decay pass after the first update of the
    /// tick), the bank drops by one step, and one render runs with the
    /// interpolation factor. An update that fails or requests exit aborts
    /// the tick before its render; a render that fails aborts the tick
    /// after it. Once exit has been requested, later ticks do nothing.
    ///
    /// Configuration changes made by an update step take effect on the
    /// next tick: the tick works on the configuration it started with.
    pub fn advance_tick<A: App>(
        &mut self,
        ctx: &mut Context,
        app: &mut A,
        elapsed_ns: u64,
    ) -> (r: TickSignal)
        ensures
            ({
                let t = old(ctx).target_ns() as int;
                let budget = tick_budget(old(self).accumulated(), elapsed_ns, old(ctx).max_ns());
                let u = final(app).updates() - old(app).updates();
                let rends = final(app).blends().len() - old(app).blends().len();
                &&& (old(ctx).exit_flag() ==> r is Exit && *final(self) == *old(self)
                    && *final(ctx) == *old(ctx) && *final(app) == *old(app))
                &&& (!old(ctx).exit_flag() ==> {
                    &&& u >= 0
                    &&& rends >= 0
                    &&& (steps_of(budget, old(ctx).target_ns()) == 0 ==> r is Continue
                        && *final(ctx) == *old(ctx) && *final(app) == *old(app))
                    &&& (forall|j: int|
                        0 <= j < old(app).blends().len() ==> (#[trigger] final(app).blends()[j])
                            == old(app).blends()[j])
                    &&& (forall|j: int|
                        old(app).blends().len() <= j < final(app).blends().len() ==> (
                        #[trigger] final(app).blends()[j]) == (BlendFactor {
                            numerator_ns: blend_numerator(
                                budget,
                                old(ctx).target_ns(),
                                j - old(app).blends().len(),
                            ) as u64,
                            denominator_ns: old(ctx).target_ns(),
                        }))
                    &&& (forall|j: int|
                        old(app).blends().len() <= j < final(app).blends().len() ==> (
                        #[trigger] final(app).blends()[j]).proper())
                    &&& (r is Continue ==> u == steps_of(budget, old(ctx).target_ns()) && rends
                        == u && final(self).accumulated() == remainder_of(
                        budget,
                        old(ctx).target_ns(),
                    ) && !final(ctx).exit_flag())
                    &&& (r is Exit ==> 1 <= u <= steps_of(budget, old(ctx).target_ns()) && rends
                        == u - 1 && final(self).accumulated() as int == budget - (u - 1) * t
                        && final(ctx).exit_flag())
                    &&& (r is Failed ==> 1 <= u <= steps_of(budget, old(ctx).target_ns()) && (
                    rends == u && final(self).accumulated() as int == budget - u * t || rends == u
                        - 1 && final(self).accumulated() as int == budget - (u - 1) * t))
                    &&& (u == 0 ==> *final(ctx) == *old(ctx))
                    &&& (u == 1 && rends == 0 ==> final(ctx).tracker() == old(ctx).tracker())
                    &&& (u >= 2 || (u == 1 && rends == 1) ==> tracker_decayed(
                        old(ctx).tracker(),
                        final(ctx).tracker(),
                    ))
                    &&& (u >= 1 ==> final(ctx).delta_ns() == old(ctx).target_ns())
                })
            }),
    {
        if ctx.exit_requested() {
            return TickSignal::Exit;
        }
        proof {
            use_type_invariant(&ctx.cfg);
        }
        let target = ctx.cfg.target_ns;
        let max = ctx.cfg.max_ns;
        let elapsed = if elapsed_ns > max {
            max
        } else {
            elapsed_ns
        };
        self.accumulated_ns = self.accumulated_ns.saturating_add(elapsed);
        let ghost budget = self.accumulated_ns;
        let ghost len0 = old(app).blends().len() as int;
        let mut first_step = true;
        while self.accumulated_ns > target
            invariant
                target == old(ctx).target_ns(),
                target >= 1,
                budget == tick_budget(old(self).accumulated(), elapsed_ns, old(ctx).max_ns()),
                len0 == old(app).blends().len(),
                !old(ctx).exit_flag(),
                !ctx.exit_flag(),
                app.updates() >= old(app).updates(),
                self.accumulated_ns as int == budget - (app.updates() - old(app).updates()) * (
                target as int),
                steps_of(budget, target) == (app.updates() - old(app).updates()) + steps_of(
                    self.accumulated_ns,
                    target,
                ),
                remainder_of(budget, target) == remainder_of(self.accumulated_ns, target),
                app.blends().len() == len0 + (app.updates() - old(app).updates()),
                forall|j: int|
                    0 <= j < len0 ==> (#[trigger] app.blends()[j]) == old(app).blends()[j],
                forall|j: int|
                    len0 <= j < app.blends().len() ==> (#[trigger] app.blends()[j]) == (BlendFactor {
                        numerator_ns: blend_numerator(budget, target, j - len0) as u64,
                        denominator_ns: target,
                    }),
                forall|j: int|
                    len0 <= j < app.blends().len() ==> (#[trigger] app.blends()[j]).proper(),
                first_step == (app.updates() == old(app).updates()),
                first_step ==> *ctx == *old(ctx) && *app == *old(app),
                !first_step ==> tracker_decayed(old(ctx).tracker(), ctx.tracker()) && ctx.delta_ns()
                    == target,
            decreases self.accumulated_ns,
        {
            let ghost k = app.updates() - old(app).updates();
            let ghost acc_pre = self.accumulated_ns;
            proof {
                assert(steps_of(acc_pre, target) == steps_of(
                    (acc_pre - target) as u64,
                    target,
                ) + 1);
                assert(remainder_of(acc_pre, target) == remainder_of(
                    (acc_pre - target) as u64,
                    target,
                ));
            }
            ctx.delta_time = target;
            let update_result = app.update(ctx);
            proof {
                assert((k + 1) * (target as int) == k * (target as int) + target) by (nonlinear_arith);
            }
            match update_result {
                Ok(()) => (),
                Err(e) => {
                    return TickSignal::Failed(e);
                },
            }
            if ctx.exit_requested() {
                return TickSignal::Exit;
            }
            if first_step {
                ctx.input.update_keys();
                first_step = false;
            }
            self.accumulated_ns = self.accumulated_ns.saturating_sub(target);
            let num = self.accumulated_ns % target;
            proof {
                assert(num as int == blend_numerator(budget, target, k));
            }
            let blend = BlendFactor { numerator_ns: num, denominator_ns: target };
            let render_result = app.render(blend);
            match render_result {
                Ok(()) => (),
                Err(e) => {
                    return TickSignal::Failed(e);
                },
            }
        }
        TickSignal::Continue
    }
}

/// Forward one raw event to the input tracker and then to the
/// application's own pass-through handler, as the cycle driver does for
/// every raw event the host delivers. The tracker cannot fail; the result
/// is the handler's.
pub fn dispatch_event<A: App>(ctx: &mut Context, app: &mut A, event: &RawEvent) -> (r: Result<
    (),
    AppError,
>)
    ensures
        final(ctx).tracker().physical_map() == physical_after(
            old(ctx).tracker().physical_map(),
            *event,
        ),
        final(ctx).tracker().logical_map() == logical_after(
            old(ctx).tracker().logical_map(),
            *event,
        ),
        final(ctx).tracker().button_map() == buttons_after(
            old(ctx).tracker().button_map(),
            *event,
        ),
        final(ctx).tracker().mods_value() == mods_after(old(ctx).tracker().mods_value(), *event),
        final(ctx).tracker().cursor_value() == cursor_after(
            old(ctx).tracker().cursor_value(),
            *event,
        ),
        final(ctx).tracker().scroll_value() == scroll_after(
            old(ctx).tracker().scroll_value(),
            *event,
        ),
        final(ctx).target_ns() == old(ctx).target_ns(),
        final(ctx).max_ns() == old(ctx).max_ns(),
        final(ctx).exit_flag() == old(ctx).exit_flag(),
        final(ctx).delta_ns() == old(ctx).delta_ns(),
        final(app).updates() == old(app).updates(),
        final(app).blends() == old(app).blends(),
{
    ctx.input.process_event(event);
    app.handle(event)
}

/// Accumulator conservation within one tick: the steps spent times the
/// target step, plus the remainder left in the bank, add up exactly to
/// the budget the tick started with. No time is created or lost.
pub proof fn lemma_accumulator_conservation(budget: u64, target_ns: u64)
    requires
        target_ns >= 1,
    ensures
        steps_of(budget, target_ns) * target_ns + remainder_of(budget, target_ns) == budget,
    decreases budget,
{
    if budget > target_ns {
        lemma_accumulator_conservation((budget - target_ns) as u64, target_ns);
        let s = steps_of((budget - target_ns) as u64, target_ns);
        assert(steps_of(budget, target_ns) == s + 1);
        assert(remainder_of(budget, target_ns) == remainder_of(
            (budget - target_ns) as u64,
            target_ns,
        ));
        assert((s + 1) * target_ns == s * target_ns + target_ns) by (nonlinear_arith);
    } else {
        assert(steps_of(budget, target_ns) == 0);
        assert(remainder_of(budget, target_ns) == budget);
        assert(0 * target_ns == 0);
    }
}

/// The remainder never exceeds the budget it came from.
pub proof fn lemma_remainder_le(budget: u64, target_ns: u64)
    requires
        target_ns >= 1,
    ensures
        remainder_of(budget, target_ns) <= budget,
    decreases budget,
{
    if budget > target_ns {
        lemma_remainder_le((budget - target_ns) as u64, target_ns);
    }
}

/// Clamping: any measured interval at or beyond the frame-time ceiling
/// (ten times the ceiling included) yields exactly the budget that the
/// ceiling itself yields; a stall can never force more catch-up than one
/// ceiling's worth.
pub proof fn lemma_elapsed_clamped(acc: u64, elapsed_ns: u64, max_ns: u64)
    requires
        elapsed_ns >= max_ns,
    ensures
        tick_budget(acc, elapsed_ns, max_ns) == tick_budget(acc, max_ns, max_ns),
{
}

/// When a tick's interval is within the ceiling and the bank does not
/// saturate, the budget is simply the carried accumulator plus the
/// interval. This is the premise under which the whole-run conservation
/// law below describes a chain of completed ticks.
pub proof fn lemma_tick_budget_plain(acc: u64, elapsed_ns: u64, max_ns: u64)
    requires
        elapsed_ns <= max_ns,
        acc + elapsed_ns <= u64::MAX,
    ensures
        tick_budget(acc, elapsed_ns, max_ns) == acc + elapsed_ns,
{
}

/// The sum of a sequence of measured elapsed intervals.
pub open spec fn elapsed_sum(es: Seq<u64>) -> int
    decreases es.len(),
{
    if es.len() == 0 {
        0
    } else {
        es.first() + elapsed_sum(es.drop_first())
    }
}

/// The accumulator after a run of complete ticks that banked each
/// interval in turn and spent each budget fully (no clamping applies when
/// every interval is at most the ceiling, and no saturation when the
/// running total fits in the bank).
pub open spec fn accumulated_after(acc0: u64, es: Seq<u64>, target_ns: u64) -> u64
    decreases es.len(),
{
    if es.len() == 0 {
        acc0
    } else if acc0 + es.first() <= u64::MAX {
        accumulated_after(
            remainder_of((acc0 + es.first()) as u64, target_ns),
            es.drop_first(),
            target_ns,
        )
    } else {
        0
    }
}

/// The total number of update steps over the same run of complete ticks.
pub open spec fn updates_over(acc0: u64, es: Seq<u64>, target_ns: u64) -> nat
    decreases es.len(),
{
    if es.len() == 0 {
        0
    } else if acc0 + es.first() <= u64::MAX {
        steps_of((acc0 + es.first()) as u64, target_ns) + updates_over(
            remainder_of((acc0 + es.first()) as u64, target_ns),
            es.drop_first(),
            target_ns,
        )
    } else {
        0
    }
}

/// Every elapsed interval is non-negative, so the sum is too.
proof fn lemma_elapsed_sum_nonneg(es: Seq<u64>)
    ensures
        elapsed_sum(es) >= 0,
    decreases es.len(),
{
    if es.len() > 0 {
        lemma_elapsed_sum_nonneg(es.drop_first());
    }
}

/// Accumulator conservation over a whole run: for any sequence of ticks
/// whose intervals each fit under the ceiling and whose running total
/// fits in the bank, the number of update steps times the target step,
/// plus the final accumulator, equals the starting accumulator plus the
/// sum of all intervals fed in.
pub proof fn lemma_conservation_over_run(acc0: u64, es: Seq<u64>, target_ns: u64)
    requires
        target_ns >= 1,
        acc0 + elapsed_sum(es) <= u64::MAX,
    ensures
        updates_over(acc0, es, target_ns) * target_ns + accumulated_after(acc0, es, target_ns)
            == acc0 + elapsed_sum(es),
    decreases es.len(),
{
    if es.len() == 0 {
        assert(updates_over(acc0, es, target_ns) == 0);
        assert(accumulated_after(acc0, es, target_ns) == acc0);
        assert(elapsed_sum(es) == 0);
        assert(0 * target_ns == 0);
    } else {
        lemma_elapsed_sum_nonneg(es.drop_first());
        assert(acc0 + es.first() <= u64::MAX);
        let b = (acc0 + es.first()) as u64;
        lemma_accumulator_conservation(b, target_ns);
        lemma_remainder_le(b, target_ns);
        let rem = remainder_of(b, target_ns);
        lemma_conservation_over_run(rem, es.drop_first(), target_ns);
        let s1 = steps_of(b, target_ns);
        let s2 = updates_over(rem, es.drop_first(), target_ns);
        assert(updates_over(acc0, es, target_ns) == s1 + s2);
        assert(accumulated_after(acc0, es, target_ns) == accumulated_after(
            rem,
            es.drop_first(),
            target_ns,
        ));
        assert(elapsed_sum(es) == es.first() + elapsed_sum(es.drop_first()));
        assert((s1 + s2) * target_ns == s1 * target_ns + s2 * target_ns) by (nonlinear_arith);
    }
}

} // verus!
