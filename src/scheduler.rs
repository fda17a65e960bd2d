use vstd::prelude::*;
use crate::control::Config;

verus! {

/// The interchangeable compute backends.
#[derive(Clone, Copy, Debug, PartialEq, Eq, Structural)]
pub enum Engine {
    Reference,
    NativeA,
    NativeB,
}

/// The backend that a selector value names, if any.
pub open spec fn spec_engine_of(selector: u8) -> Option<Engine> {
    if selector == 0 {
        Some(Engine::Reference)
    } else if selector == 1 {
        Some(Engine::NativeA)
    } else if selector == 2 {
        Some(Engine::NativeB)
    } else {
        None
    }
}

/// Maps a selector value to its backend; an unknown value names none.
pub fn engine_of(selector: u8) -> (r: Option<Engine>)
    ensures
        r == spec_engine_of(selector),
{
    if selector == 0 {
        Some(Engine::Reference)
    } else if selector == 1 {
        Some(Engine::NativeA)
    } else if selector == 2 {
        Some(Engine::NativeB)
    } else {
        None
    }
}

/// What one tick of the frame scheduler does, decided from a configuration
/// snapshot and the number of attached subscribers.
#[derive(Clone, Copy, Debug, PartialEq, Eq, Structural)]
pub struct TickPlan {
    /// Backend to run; `None` skips the compute step and keeps the previous output.
    pub engine: Option<Engine>,
    /// Number of points transformed and packaged.
    pub count: u32,
    /// Target frame rate used for pacing after this tick.
    pub target_fps: u32,
    /// Whether a frame is packaged and published.
    pub publish: bool,
}

/// The plan for a tick that reads `config` with `subscribers` attached.
pub open spec fn spec_plan(config: Config, subscribers: usize) -> TickPlan {
    TickPlan {
        engine: spec_engine_of(config.engine),
        count: config.point_count,
        target_fps: config.target_fps,
        publish: subscribers > 0,
    }
}

/// Decides one tick: the backend named by the configuration's current
/// selector, the active point count, and whether anyone will receive a frame.
pub fn plan_tick(config: &Config, subscribers: usize) -> (r: TickPlan)
    ensures
        r == spec_plan(*config, subscribers),
{
    TickPlan {
        engine: engine_of(config.engine),
        count: config.point_count,
        target_fps: config.target_fps,
        publish: subscribers > 0,
    }
}

/// Microseconds in one second.
pub const MICROS_PER_SECOND: u64 = 1_000_000;

/// Pause between ticks when the target rate is zero (about 200 frames per second).
pub const IDLE_INTERVAL_US: u64 = 5_000;

/// Time budget of one frame at `fps` frames per second, in microseconds.
pub open spec fn spec_budget(fps: u32) -> int {
    if fps == 0 {
        IDLE_INTERVAL_US as int
    } else {
        MICROS_PER_SECOND as int / fps as int
    }
}

/// How long the scheduler sleeps after a tick that took `elapsed_us`.
pub open spec fn spec_pace_delay(fps: u32, elapsed_us: u64) -> int {
    if fps == 0 {
        IDLE_INTERVAL_US as int
    } else if (elapsed_us as int) < spec_budget(fps) {
        spec_budget(fps) - elapsed_us
    } else {
        0
    }
}

/// The sleep that closes a tick: the rest of the frame budget at a positive
/// target rate (never negative), or a fixed short pause at rate zero.
pub fn pace_delay_us(target_fps: u32, elapsed_us: u64) -> (r: u64)
    ensures
        r as int == spec_pace_delay(target_fps, elapsed_us),
{
    if target_fps == 0 {
        IDLE_INTERVAL_US
    } else {
        let budget = MICROS_PER_SECOND / (target_fps as u64);
        if elapsed_us < budget {
            budget - elapsed_us
        } else {
            0
        }
    }
}

/// Successive ticks start no closer than the idle interval at rate zero, and,
/// at a positive rate, exactly one frame budget apart whenever a tick's own
/// work fits in the budget.
pub proof fn lemma_tick_spacing(fps: u32, elapsed_us: u64)
    ensures
        fps == 0 ==> elapsed_us + spec_pace_delay(fps, elapsed_us) >= IDLE_INTERVAL_US,
        fps > 0 ==> elapsed_us + spec_pace_delay(fps, elapsed_us) >= spec_budget(fps),
        fps > 0 && elapsed_us <= spec_budget(fps) ==> elapsed_us + spec_pace_delay(fps, elapsed_us)
            == spec_budget(fps),
        spec_pace_delay(fps, elapsed_us) >= 0,
{
}

/// With no subscriber attached no frame is packaged, and the configuration is
/// still read: the plan carries its current point count and rate.
pub proof fn lemma_idle_tick_skips_publish(config: Config)
    ensures
        !spec_plan(config, 0).publish,
        spec_plan(config, 0).count == config.point_count,
        spec_plan(config, 0).target_fps == config.target_fps,
{
}

/// A new engine selector takes effect at the first tick that reads the
/// configuration after it is applied; the tick before it ran the old one.
/// An unknown selector skips the compute step.
pub proof fn lemma_engine_switch(config: Config, selector: u8, subscribers: usize)
    requires
        config.wf(),
    ensures
        spec_plan(config, subscribers).engine == spec_engine_of(config.engine),
        spec_plan(config.spec_apply(crate::control::Command::SelectEngine(selector)), subscribers).engine
            == spec_engine_of(selector),
        selector > 2 ==> spec_plan(
            config.spec_apply(crate::control::Command::SelectEngine(selector)),
            subscribers,
        ).engine is None,
{
}

} // verus!
