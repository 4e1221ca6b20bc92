//! A recording application: it logs every update and render invocation it
//! receives and can be told, ahead of time, to request exit or to fail at
//! a given invocation. It gives the [`App`] trait an implementation whose
//! ghost history is proved to match its real logs, and gives tests a probe
//! for the driver's behaviour.

use vstd::prelude::*;

use crate::context::Context;
use crate::driver::App;
use crate::driver::AppError;
use crate::driver::BlendFactor;
use crate::input::RawEvent;

verus! {

/// An application that records what the driver does to it.
#[derive(Debug)]
pub struct Recorder {
    /// The step delta handed to each update invocation, oldest first.
    pub update_deltas: Vec<u64>,
    /// The blending factor of each render invocation, oldest first.
    pub render_blends: Vec<BlendFactor>,
    /// Every raw event passed through to the handler, oldest first.
    pub events: Vec<RawEvent>,
    /// Request exit during the update invocation with this 1-based number
    /// (and during every later one), if set.
    pub exit_at: Option<u64>,
    /// Fail the update invocation with this 1-based number, if set.
    pub fail_update_at: Option<u64>,
    /// Fail the render invocation with this 1-based number, if set.
    pub fail_render_at: Option<u64>,
    /// During the update invocation with the given 1-based number, set
    /// the target frame time to the given duration (in nanoseconds), if
    /// set.
    pub retime_at: Option<(u64, u64)>,
}

impl Recorder {
    /// A recorder with empty logs that never requests exit and never
    /// fails.
    pub fn new() -> (r: Recorder)
        ensures
            r.updates() == 0,
            r.blends() == Seq::<BlendFactor>::empty(),
            r.events@ == Seq::<RawEvent>::empty(),
            r.exit_at is None,
            r.fail_update_at is None,
            r.fail_render_at is None,
            r.retime_at is None,
    {
        Recorder {
            update_deltas: Vec::new(),
            render_blends: Vec::new(),
            events: Vec::new(),
            exit_at: None,
            fail_update_at: None,
            fail_render_at: None,
            retime_at: None,
        }
    }
}

impl App for Recorder {
    open spec fn updates(&self) -> nat {
        self.update_deltas@.len()
    }

    open spec fn blends(&self) -> Seq<BlendFactor> {
        self.render_blends@
    }

    fn update(&mut self, ctx: &mut Context) -> (r: Result<(), AppError>)
        ensures
            final(self).update_deltas@ == old(self).update_deltas@.push(old(ctx).delta_ns()),
            (r is Err) <==> old(self).fail_update_at == Some((old(self).updates() + 1) as u64),
            ({
                match old(self).exit_at {
                    Some(at) => final(ctx).exit_flag() == (old(ctx).exit_flag() || old(
                        self,
                    ).updates() + 1 >= at),
                    None => final(ctx).exit_flag() == old(ctx).exit_flag(),
                }
            }),
    {
        let delta = ctx.frame_time();
        self.update_deltas.push(delta);
        let count: u64 = self.update_deltas.len() as u64;
        if let Some((at, time_ns)) = self.retime_at {
            if count == at {
                let _ = ctx.set_target_frame_time(time_ns);
            }
        }
        if let Some(at) = self.exit_at {
            if count >= at {
                ctx.exit();
            }
        }
        if let Some(at) = self.fail_update_at {
            if count == at {
                return Err(AppError { message: "scripted update failure".to_string() });
            }
        }
        Ok(())
    }

    fn render(&mut self, blending_factor: BlendFactor) -> (r: Result<(), AppError>)
        ensures
            (r is Err) <==> old(self).fail_render_at == Some(
                (old(self).blends().len() + 1) as u64,
            ),
    {
        self.render_blends.push(blending_factor);
        let count: u64 = self.render_blends.len() as u64;
        if let Some(at) = self.fail_render_at {
            if count == at {
                return Err(AppError { message: "scripted render failure".to_string() });
            }
        }
        Ok(())
    }

    fn handle(&mut self, event: &RawEvent) -> (r: Result<(), AppError>)
        ensures
            final(self).events@ == old(self).events@.push(*event),
            r is Ok,
    {
        self.events.push(*event);
        Ok(())
    }
}

} // verus!
