//! Behavioural tests for the fixed-timestep scheduler and the cycle
//! driver, probed through the recording application.

use frameloop::BlendFactor;
use frameloop::ConfigError;
use frameloop::Context;
use frameloop::RawEvent;
use frameloop::Recorder;
use frameloop::Scheduler;
use frameloop::TickSignal;
use frameloop::dispatch_event;

const MS: u64 = 1_000_000;

fn context_16ms() -> Context {
    let mut ctx = Context::new(60, 250 * MS).unwrap();
    ctx.set_target_frame_time(16 * MS).unwrap();
    ctx
}

#[test]
fn forty_ms_tick_runs_two_updates_with_half_blend() {
    // target_step = 16 ms, max_frame_time = 250 ms, elapsed = 40 ms:
    // exactly 2 updates (32 ms consumed), 8 ms left in the accumulator,
    // 2 renders, blending factor 8/16 = 0.5 both times.
    let mut ctx = context_16ms();
    let mut sched = Scheduler::new();
    let mut rec = Recorder::new();

    let signal = sched.advance_tick(&mut ctx, &mut rec, 40 * MS);
    assert!(matches!(signal, TickSignal::Continue));
    assert_eq!(rec.update_deltas.len(), 2);
    assert_eq!(rec.render_blends.len(), 2);
    assert_eq!(sched.accumulated_time(), 8 * MS);
    let expected = BlendFactor { numerator_ns: 8 * MS, denominator_ns: 16 * MS };
    assert_eq!(rec.render_blends[0], expected);
    assert_eq!(rec.render_blends[1], expected);
    let factor = expected.numerator_ns as f64 / expected.denominator_ns as f64;
    assert_eq!(factor, 0.5);
    assert_eq!(rec.update_deltas[0], 16 * MS);
    assert_eq!(rec.update_deltas[1], 16 * MS);
}

#[test]
fn short_tick_runs_no_update_and_no_render() {
    let mut ctx = context_16ms();
    let mut sched = Scheduler::new();
    let mut rec = Recorder::new();

    let signal = sched.advance_tick(&mut ctx, &mut rec, 10 * MS);
    assert!(matches!(signal, TickSignal::Continue));
    assert_eq!(rec.update_deltas.len(), 0);
    assert_eq!(rec.render_blends.len(), 0);
    assert_eq!(sched.accumulated_time(), 10 * MS);

    // The leftover is banked: the next short tick pushes it over one step.
    let signal = sched.advance_tick(&mut ctx, &mut rec, 10 * MS);
    assert!(matches!(signal, TickSignal::Continue));
    assert_eq!(rec.update_deltas.len(), 1);
    assert_eq!(rec.render_blends.len(), 1);
    assert_eq!(sched.accumulated_time(), 4 * MS);
}

#[test]
fn accumulator_conservation_across_ticks() {
    // Updates times the step, plus the final accumulator, equals the sum
    // of every elapsed interval fed in.
    let mut ctx = context_16ms();
    let mut sched = Scheduler::new();
    let mut rec = Recorder::new();

    let elapsed = [40 * MS, 3 * MS, 100 * MS, 16 * MS, 250 * MS, 1, 77 * MS];
    let mut total: u64 = 0;
    for e in elapsed {
        let signal = sched.advance_tick(&mut ctx, &mut rec, e);
        assert!(matches!(signal, TickSignal::Continue));
        total += e;
    }
    let spent = rec.update_deltas.len() as u64 * 16 * MS;
    assert_eq!(spent + sched.accumulated_time(), total);
}

#[test]
fn oversized_stall_is_clamped_to_the_ceiling() {
    // An elapsed interval of ten times the ceiling behaves exactly like
    // the ceiling itself.
    let mut ctx_a = context_16ms();
    let mut sched_a = Scheduler::new();
    let mut rec_a = Recorder::new();
    let signal = sched_a.advance_tick(&mut ctx_a, &mut rec_a, 10 * 250 * MS);
    assert!(matches!(signal, TickSignal::Continue));

    let mut ctx_b = context_16ms();
    let mut sched_b = Scheduler::new();
    let mut rec_b = Recorder::new();
    let signal = sched_b.advance_tick(&mut ctx_b, &mut rec_b, 250 * MS);
    assert!(matches!(signal, TickSignal::Continue));

    assert_eq!(rec_a.update_deltas.len(), rec_b.update_deltas.len());
    assert_eq!(sched_a.accumulated_time(), sched_b.accumulated_time());
    // 250 ms at a 16 ms step: 15 whole steps, 10 ms left over.
    assert_eq!(rec_a.update_deltas.len(), 15);
    assert_eq!(sched_a.accumulated_time(), 10 * MS);
}

#[test]
fn renders_pair_with_updates_in_every_tick() {
    let mut ctx = context_16ms();
    let mut sched = Scheduler::new();
    let mut rec = Recorder::new();

    for e in [5 * MS, 40 * MS, 200 * MS, 16 * MS, 17 * MS] {
        let before_updates = rec.update_deltas.len();
        let before_renders = rec.render_blends.len();
        let signal = sched.advance_tick(&mut ctx, &mut rec, e);
        assert!(matches!(signal, TickSignal::Continue));
        assert_eq!(
            rec.update_deltas.len() - before_updates,
            rec.render_blends.len() - before_renders
        );
    }
}

#[test]
fn blending_factors_stay_in_range() {
    let mut ctx = context_16ms();
    let mut sched = Scheduler::new();
    let mut rec = Recorder::new();

    for e in [40 * MS, 32 * MS, 250 * MS, 16 * MS + 1, 48 * MS] {
        let signal = sched.advance_tick(&mut ctx, &mut rec, e);
        assert!(matches!(signal, TickSignal::Continue));
    }
    assert!(!rec.render_blends.is_empty());
    for blend in &rec.render_blends {
        assert!(blend.numerator_ns < blend.denominator_ns);
        let factor = blend.numerator_ns as f64 / blend.denominator_ns as f64;
        assert!((0.0..1.0).contains(&factor));
    }
}

#[test]
fn exit_stops_the_tick_before_its_render() {
    // 100 ms would yield 6 steps; exit at the second update means exactly
    // 2 updates, 1 render, and no decay beyond the first step's.
    let mut ctx = context_16ms();
    let mut sched = Scheduler::new();
    let mut rec = Recorder::new();
    rec.exit_at = Some(2);

    let signal = sched.advance_tick(&mut ctx, &mut rec, 100 * MS);
    assert!(matches!(signal, TickSignal::Exit));
    assert_eq!(rec.update_deltas.len(), 2);
    assert_eq!(rec.render_blends.len(), 1);
    // Only the first step's subtraction happened.
    assert_eq!(sched.accumulated_time(), 100 * MS - 16 * MS);

    // Once exit is requested, later ticks run no callbacks at all.
    let signal = sched.advance_tick(&mut ctx, &mut rec, 400 * MS);
    assert!(matches!(signal, TickSignal::Exit));
    assert_eq!(rec.update_deltas.len(), 2);
    assert_eq!(rec.render_blends.len(), 1);
    assert_eq!(sched.accumulated_time(), 100 * MS - 16 * MS);
}

#[test]
fn exit_at_first_update_skips_the_decay_pass() {
    let mut ctx = context_16ms();
    let mut sched = Scheduler::new();
    let mut rec = Recorder::new();
    rec.exit_at = Some(1);

    let key: u32 = 30;
    ctx.input.process_event(&RawEvent::Key {
        physical: Some(key),
        logical: None,
        pressed: true,
        repeat: false,
        synthetic: false,
    });
    let signal = sched.advance_tick(&mut ctx, &mut rec, 40 * MS);
    assert!(matches!(signal, TickSignal::Exit));
    assert_eq!(rec.update_deltas.len(), 1);
    assert_eq!(rec.render_blends.len(), 0);
    // The tick ended before the decay pass: the key still reads Pressed.
    assert!(ctx.input.is_physical_key_pressed(key));
}

#[test]
fn completed_tick_decays_input_exactly_once() {
    let mut ctx = context_16ms();
    let mut sched = Scheduler::new();
    let mut rec = Recorder::new();

    let key: u32 = 30;
    ctx.input.process_event(&RawEvent::Key {
        physical: Some(key),
        logical: None,
        pressed: true,
        repeat: false,
        synthetic: false,
    });
    // Three catch-up steps in one tick still decay only once: the key has
    // moved from Pressed to Down, not out of the map.
    let signal = sched.advance_tick(&mut ctx, &mut rec, 60 * MS);
    assert!(matches!(signal, TickSignal::Continue));
    assert_eq!(rec.update_deltas.len(), 3);
    assert!(!ctx.input.is_physical_key_pressed(key));
    assert!(ctx.input.is_physical_key_down(key));
}

#[test]
fn failing_update_aborts_the_tick_without_its_render() {
    let mut ctx = context_16ms();
    let mut sched = Scheduler::new();
    let mut rec = Recorder::new();
    rec.fail_update_at = Some(1);

    let signal = sched.advance_tick(&mut ctx, &mut rec, 40 * MS);
    match signal {
        TickSignal::Failed(err) => assert_eq!(err.message, "scripted update failure"),
        _ => panic!("expected a failure signal"),
    }
    assert_eq!(rec.update_deltas.len(), 1);
    assert_eq!(rec.render_blends.len(), 0);
    assert_eq!(sched.accumulated_time(), 40 * MS);
}

#[test]
fn failing_render_aborts_the_tick_after_the_subtraction() {
    let mut ctx = context_16ms();
    let mut sched = Scheduler::new();
    let mut rec = Recorder::new();
    rec.fail_render_at = Some(1);

    let signal = sched.advance_tick(&mut ctx, &mut rec, 40 * MS);
    match signal {
        TickSignal::Failed(err) => assert_eq!(err.message, "scripted render failure"),
        _ => panic!("expected a failure signal"),
    }
    assert_eq!(rec.update_deltas.len(), 1);
    assert_eq!(rec.render_blends.len(), 1);
    assert_eq!(sched.accumulated_time(), 24 * MS);
}

#[test]
fn zero_configuration_is_rejected() {
    assert_eq!(Context::new(0, 250 * MS).err(), Some(ConfigError::ZeroTargetStep));
    assert_eq!(Context::new(60, 0).err(), Some(ConfigError::ZeroMaxFrameTime));

    let mut ctx = Context::new(60, 250 * MS).unwrap();
    assert_eq!(ctx.set_target_frame_time(0).err(), Some(ConfigError::ZeroTargetStep));
    assert_eq!(ctx.set_target_fps(0).err(), Some(ConfigError::ZeroTargetStep));
    assert_eq!(ctx.set_max_frame_time(0).err(), Some(ConfigError::ZeroMaxFrameTime));
}

#[test]
fn configuration_setters_take_effect() {
    let mut ctx = Context::new(60, 250 * MS).unwrap();
    // 1e9 / 60 floored.
    assert_eq!(ctx.target_frame_time(), 16_666_666);
    assert_eq!(ctx.max_frame_time(), 250 * MS);
    assert_eq!(ctx.frame_time(), 0);

    ctx.set_target_fps(100).unwrap();
    assert_eq!(ctx.target_frame_time(), 10 * MS);
    ctx.set_target_frame_time(5 * MS).unwrap();
    assert_eq!(ctx.target_frame_time(), 5 * MS);
    ctx.set_max_frame_time(70 * MS).unwrap();
    assert_eq!(ctx.max_frame_time(), 70 * MS);
}

#[test]
fn frame_time_reports_the_fixed_step() {
    let mut ctx = context_16ms();
    let mut sched = Scheduler::new();
    let mut rec = Recorder::new();
    assert_eq!(ctx.frame_time(), 0);
    sched.advance_tick(&mut ctx, &mut rec, 40 * MS);
    assert_eq!(ctx.frame_time(), 16 * MS);
}

#[test]
fn dispatch_forwards_to_tracker_and_handler() {
    let mut ctx = context_16ms();
    let mut rec = Recorder::new();

    let key: u32 = 44;
    let event = RawEvent::Key {
        physical: Some(key),
        logical: None,
        pressed: true,
        repeat: false,
        synthetic: false,
    };
    let result = dispatch_event(&mut ctx, &mut rec, &event);
    assert!(result.is_ok());
    assert!(ctx.input.is_physical_key_pressed(key));
    assert_eq!(rec.events.len(), 1);

    let result = dispatch_event(&mut ctx, &mut rec, &RawEvent::CloseRequested);
    assert!(result.is_ok());
    assert_eq!(rec.events.len(), 2);
    assert!(rec.events[1].is_close_requested());
    // Dispatching ran no update and no render.
    assert_eq!(rec.update_deltas.len(), 0);
    assert_eq!(rec.render_blends.len(), 0);
}

#[test]
fn mid_tick_reconfiguration_applies_on_the_next_tick() {
    // The tick works on the configuration it started with, even though
    // the very first update changes the target step.
    let mut ctx = context_16ms();
    let mut sched = Scheduler::new();
    let mut rec = Recorder::new();
    rec.retime_at = Some((1, 1_000 * MS));

    let signal = sched.advance_tick(&mut ctx, &mut rec, 40 * MS);
    assert!(matches!(signal, TickSignal::Continue));
    assert_eq!(rec.update_deltas.len(), 2);
    assert_eq!(sched.accumulated_time(), 8 * MS);
    assert_eq!(ctx.target_frame_time(), 1_000 * MS);

    // The new one-second step swallows the next tick whole.
    let signal = sched.advance_tick(&mut ctx, &mut rec, 100 * MS);
    assert!(matches!(signal, TickSignal::Continue));
    assert_eq!(rec.update_deltas.len(), 2);
    assert_eq!(sched.accumulated_time(), 108 * MS);
}
