//! A thin scaffolding layer for an application's update/render cycle:
//! a fixed-timestep frame scheduler, a tri-state input tracker, and the
//! driver that composes them.
//!
//! The host environment owns the window, the event pump and the clock;
//! this crate owns the bookkeeping: converting irregular wall-clock ticks
//! into fixed-size simulation steps with an interpolation factor, and
//! converting edge-triggered raw input events into a pressed / held /
//! released model that application code can poll once per step.

mod context;
mod driver;
mod input;
mod recorder;
mod tristate;

pub use context::ConfigError;
pub use context::Context;
pub use context::target_of_fps;
pub use driver::App;
pub use driver::AppError;
pub use driver::BlendFactor;
pub use driver::Scheduler;
pub use driver::TickSignal;
pub use driver::accumulated_after;
pub use driver::blend_numerator;
pub use driver::dispatch_event;
pub use driver::elapsed_sum;
pub use driver::lemma_accumulator_conservation;
pub use driver::lemma_conservation_over_run;
pub use driver::lemma_elapsed_clamped;
pub use driver::lemma_remainder_le;
pub use driver::lemma_tick_budget_plain;
pub use driver::remainder_of;
pub use driver::steps_of;
pub use driver::tick_budget;
pub use driver::tracker_decayed;
pub use driver::updates_over;
pub use input::CursorPos;
pub use input::Input;
pub use input::KeyMods;
pub use input::RawEvent;
pub use input::ScrollDelta;
pub use input::buttons_after;
pub use input::cursor_after;
pub use input::edge_state;
pub use input::lemma_repeat_suppression;
pub use input::logical_after;
pub use input::mods_after;
pub use input::physical_after;
pub use input::scroll_after;
pub use recorder::Recorder;
pub use tristate::InputState;
pub use tristate::StateMap;
pub use tristate::decayed;
pub use tristate::decayed_n;
pub use tristate::lemma_absent_stays_absent;
pub use tristate::lemma_tri_state_lifecycle;
