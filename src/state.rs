use vstd::prelude::*;
use crate::config::{
    default_config_spec, ClickStyle, EngineConfig, MouseButton, Point, RepeatMode,
};

verus! {

/// The live configuration together with the flag that says whether the
/// click loop is active.
#[derive(Clone, Copy, Debug, PartialEq, Eq, Structural)]
pub struct EngineState {
    pub config: EngineConfig,
    pub running: bool,
}

impl EngineState {
    /// The state after writing every field of `cfg`; the flag is untouched.
    pub open spec fn applied(self, cfg: EngineConfig) -> EngineState {
        EngineState { config: cfg, running: self.running }
    }

    pub open spec fn with_running(self, running: bool) -> EngineState {
        EngineState { config: self.config, running }
    }

    /// The repeat mode after one decrement, and whether it reached zero by it.
    pub open spec fn decremented(self) -> (EngineState, bool) {
        match self.config.repeat_mode {
            RepeatMode::Count(n) => if n > 0 {
                (
                    EngineState {
                        config: EngineConfig { repeat_mode: RepeatMode::Count((n - 1) as u64), ..self.config },
                        running: self.running,
                    },
                    n == 1,
                )
            } else {
                (self, false)
            },
            RepeatMode::Infinite => (self, false),
        }
    }

    pub open spec fn new_spec() -> EngineState {
        EngineState { config: default_config_spec(), running: false }
    }

    pub fn new() -> (r: EngineState)
        ensures
            r == EngineState::new_spec(),
    {
        EngineState { config: EngineConfig::default_config(), running: false }
    }

    pub fn apply_config(&mut self, cfg: EngineConfig)
        ensures
            *final(self) == old(self).applied(cfg),
    {
        self.config = cfg;
    }

    pub fn set_running(&mut self, running: bool)
        ensures
            *final(self) == old(self).with_running(running),
    {
        self.running = running;
    }

    pub fn is_running(&self) -> (r: bool)
        ensures
            r == self.running,
    {
        self.running
    }

    pub fn interval_ms(&self) -> (r: u64)
        ensures
            r == self.config.interval_ms,
    {
        self.config.interval_ms
    }

    pub fn jitter_enabled(&self) -> (r: bool)
        ensures
            r == self.config.jitter_enabled,
    {
        self.config.jitter_enabled
    }

    pub fn jitter_ms(&self) -> (r: u64)
        ensures
            r == self.config.jitter_ms,
    {
        self.config.jitter_ms
    }

    pub fn button(&self) -> (r: MouseButton)
        ensures
            r == self.config.button,
    {
        self.config.button
    }

    pub fn click_style(&self) -> (r: ClickStyle)
        ensures
            r == self.config.click_style,
    {
        self.config.click_style
    }

    pub fn repeat_mode(&self) -> (r: RepeatMode)
        ensures
            r == self.config.repeat_mode,
    {
        self.config.repeat_mode
    }

    pub fn lock_position_enabled(&self) -> (r: bool)
        ensures
            r == self.config.lock_position_enabled,
    {
        self.config.lock_position_enabled
    }

    pub fn lock_position(&self) -> (r: Point)
        ensures
            r == self.config.lock_position,
    {
        self.config.lock_position
    }

    /// Counts one cycle off a finite repeat mode. Returns true exactly when
    /// this call brought the count to zero; a count already at zero and the
    /// endless mode are left as they are.
    pub fn decrement_repeat_count(&mut self) -> (reached_zero: bool)
        ensures
            (*final(self), reached_zero) == old(self).decremented(),
            final(self).running == old(self).running,
            old(self).config.repeat_mode == RepeatMode::Count(1) ==> reached_zero
                && final(self).config.repeat_mode == RepeatMode::Count(0),
            old(self).config.repeat_mode == RepeatMode::Count(0) ==> !reached_zero
                && *final(self) == *old(self),
            old(self).config.repeat_mode == RepeatMode::Infinite ==> !reached_zero
                && *final(self) == *old(self),
    {
        match self.config.repeat_mode {
            RepeatMode::Count(n) => {
                if n > 0 {
                    self.config.repeat_mode = RepeatMode::Count(n - 1);
                    n == 1
                } else {
                    false
                }
            },
            RepeatMode::Infinite => false,
        }
    }
}

/// Writing a configuration and reading it back field by field gives each
/// written value, and leaves the running flag as it was.
pub proof fn apply_config_reads_back(s: EngineState, cfg: EngineConfig)
    ensures
        s.applied(cfg).config.interval_ms == cfg.interval_ms,
        s.applied(cfg).config.jitter_enabled == cfg.jitter_enabled,
        s.applied(cfg).config.jitter_ms == cfg.jitter_ms,
        s.applied(cfg).config.button == cfg.button,
        s.applied(cfg).config.click_style == cfg.click_style,
        s.applied(cfg).config.repeat_mode == cfg.repeat_mode,
        s.applied(cfg).config.lock_position_enabled == cfg.lock_position_enabled,
        s.applied(cfg).config.lock_position == cfg.lock_position,
        s.applied(cfg).running == s.running,
{
}

} // verus!
