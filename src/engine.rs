use vstd::prelude::*;
use crate::config::{
    compute_delay, delay_spec, ClickStyle, EngineConfig, JitterDraw, MouseButton, Point, RepeatMode,
};
use crate::state::EngineState;

verus! {

/// Where the worker stands between two steps.
#[derive(Clone, Copy, Debug, PartialEq, Eq, Structural)]
pub enum Phase {
    /// Blocked until woken, because the engine is stopped.
    Parked,
    /// Waiting out the delay after a cycle; a wake may cut it short.
    Sleeping,
    /// Between the two clicks of a double click.
    ClickGap { button: MouseButton, stop_after: bool },
}

/// What the worker must do next. When it is done (or woken) it asks for
/// the next step.
#[derive(Clone, Copy, Debug, PartialEq, Eq, Structural)]
pub enum Action {
    /// Announce that the engine stopped on its own if asked, then block
    /// until a wake.
    Park { notify_stopped: bool },
    /// Move the pointer if asked, click once, then pause the double-click gap.
    ClickThenGap { move_to: Option<Point>, button: MouseButton },
    /// Move the pointer if asked, click once, announce a self-stop if asked,
    /// then sleep the delay unless woken first.
    ClickThenSleep { move_to: Option<Point>, button: MouseButton, notify_stopped: bool, delay_ms: u64 },
}

/// What a hotkey press led to.
#[derive(Clone, Copy, Debug, PartialEq, Eq, Structural)]
pub enum HotkeyReaction {
    /// The engine was running and is now stopped.
    Stopped,
    /// The engine was stopped: the interface is asked to push its current
    /// configuration and then start the engine.
    ConfigRequested,
}

/// The click engine: its shared state and the worker's phase.
#[derive(Clone, Copy, Debug, PartialEq, Eq, Structural)]
pub struct ClickEngine {
    pub state: EngineState,
    pub phase: Phase,
}

/// The pointer target for a cycle's first click.
pub open spec fn move_target(cfg: EngineConfig) -> Option<Point> {
    if cfg.lock_position_enabled {
        Some(cfg.lock_position)
    } else {
        None
    }
}

impl ClickEngine {
    pub open spec fn started(self) -> ClickEngine {
        ClickEngine { state: self.state.with_running(true), phase: self.phase }
    }

    pub open spec fn stopped(self) -> ClickEngine {
        ClickEngine { state: self.state.with_running(false), phase: self.phase }
    }

    /// The end of a cycle: its last click, a self-stop when the count ran
    /// out, and the delay drawn from the current configuration.
    pub open spec fn finish_cycle(
        s: EngineState,
        move_to: Option<Point>,
        button: MouseButton,
        stop_after: bool,
        draw: JitterDraw,
    ) -> (ClickEngine, Action) {
        (
            ClickEngine {
                state: if stop_after { s.with_running(false) } else { s },
                phase: Phase::Sleeping,
            },
            Action::ClickThenSleep {
                move_to,
                button,
                notify_stopped: stop_after,
                delay_ms: delay_spec(s.config.interval_ms, s.config.jitter_enabled, s.config.jitter_ms, draw),
            },
        )
    }

    /// The first part of a cycle, from the check of the running flag to the
    /// first click. A count already at zero counts as run out: the engine
    /// stops and announces it without clicking, so that zero never stays
    /// the count of a running engine.
    pub open spec fn begin_cycle(s: EngineState, draw: JitterDraw) -> (ClickEngine, Action) {
        if !s.running {
            (ClickEngine { state: s, phase: Phase::Parked }, Action::Park { notify_stopped: false })
        } else if s.config.repeat_mode == RepeatMode::Count(0) {
            (
                ClickEngine { state: s.with_running(false), phase: Phase::Parked },
                Action::Park { notify_stopped: true },
            )
        } else {
            let (s1, stop_after) = s.decremented();
            let move_to = move_target(s1.config);
            let button = s1.config.button;
            if s1.config.click_style == ClickStyle::Double {
                (
                    ClickEngine { state: s1, phase: Phase::ClickGap { button, stop_after } },
                    Action::ClickThenGap { move_to, button },
                )
            } else {
                Self::finish_cycle(s1, move_to, button, stop_after, draw)
            }
        }
    }

    /// One step of the worker from its current phase.
    pub open spec fn next(self, draw: JitterDraw) -> (ClickEngine, Action) {
        match self.phase {
            Phase::ClickGap { button, stop_after } => if self.state.running {
                Self::finish_cycle(self.state, None, button, stop_after, draw)
            } else {
                Self::begin_cycle(self.state, draw)
            },
            _ => Self::begin_cycle(self.state, draw),
        }
    }

    /// The engine at process start: default configuration, stopped, parked.
    pub fn new() -> (r: ClickEngine)
        ensures
            r.state == EngineState::new_spec(),
            r.phase == Phase::Parked,
    {
        ClickEngine { state: EngineState::new(), phase: Phase::Parked }
    }

    pub fn apply_config(&mut self, cfg: EngineConfig)
        ensures
            final(self).state == old(self).state.applied(cfg),
            final(self).phase == old(self).phase,
    {
        self.state.apply_config(cfg);
    }

    /// Sets the running flag; the caller then wakes the worker.
    pub fn start(&mut self)
        ensures
            *final(self) == old(self).started(),
    {
        self.state.set_running(true);
    }

    /// Clears the running flag; the caller then wakes the worker so that
    /// it parks at its next step.
    pub fn stop(&mut self)
        ensures
            *final(self) == old(self).stopped(),
    {
        self.state.set_running(false);
    }

    pub fn is_running(&self) -> (r: bool)
        ensures
            r == self.state.running,
    {
        self.state.is_running()
    }

    /// Toggles on a hotkey press, by the flag as it is at the press.
    pub fn on_hotkey(&mut self) -> (r: HotkeyReaction)
        ensures
            old(self).state.running ==> r == HotkeyReaction::Stopped && *final(self) == old(self).stopped(),
            !old(self).state.running ==> r == HotkeyReaction::ConfigRequested && *final(self) == *old(self),
    {
        if self.state.is_running() {
            self.stop();
            HotkeyReaction::Stopped
        } else {
            HotkeyReaction::ConfigRequested
        }
    }

    fn finish_cycle_exec(&mut self, move_to: Option<Point>, button: MouseButton, stop_after: bool, draw: JitterDraw) -> (r: Action)
        requires
            draw.magnitude <= old(self).state.config.jitter_ms,
        ensures
            (*final(self), r) == Self::finish_cycle(old(self).state, move_to, button, stop_after, draw),
    {
        let delay_ms = compute_delay(
            self.state.interval_ms(),
            self.state.jitter_enabled(),
            self.state.jitter_ms(),
            draw,
        );
        if stop_after {
            self.state.set_running(false);
        }
        self.phase = Phase::Sleeping;
        Action::ClickThenSleep { move_to, button, notify_stopped: stop_after, delay_ms }
    }

    fn begin_cycle_exec(&mut self, draw: JitterDraw) -> (r: Action)
        requires
            draw.magnitude <= old(self).state.config.jitter_ms,
        ensures
            (*final(self), r) == Self::begin_cycle(old(self).state, draw),
    {
        if !self.state.is_running() {
            self.phase = Phase::Parked;
            return Action::Park { notify_stopped: false };
        }
        if self.state.repeat_mode() == RepeatMode::Count(0) {
            self.state.set_running(false);
            self.phase = Phase::Parked;
            return Action::Park { notify_stopped: true };
        }
        let stop_after = self.state.decrement_repeat_count();
        let move_to = if self.state.lock_position_enabled() {
            Some(self.state.lock_position())
        } else {
            None
        };
        let button = self.state.button();
        if self.state.click_style() == ClickStyle::Double {
            self.phase = Phase::ClickGap { button, stop_after };
            Action::ClickThenGap { move_to, button }
        } else {
            self.finish_cycle_exec(move_to, button, stop_after, draw)
        }
    }

    /// Decides the worker's next action and moves to the matching phase.
    /// `draw` is this step's jitter draw, taken within the current bound.
    pub fn step(&mut self, draw: JitterDraw) -> (r: Action)
        requires
            draw.magnitude <= old(self).state.config.jitter_ms,
        ensures
            (*final(self), r) == old(self).next(draw),
    {
        match self.phase {
            Phase::ClickGap { button, stop_after } => {
                if self.state.is_running() {
                    self.finish_cycle_exec(None, button, stop_after, draw)
                } else {
                    self.begin_cycle_exec(draw)
                }
            },
            _ => self.begin_cycle_exec(draw),
        }
    }
}

/// Once stopped, the worker's very next step parks it, whatever it was
/// doing: sleeping a delay, waiting between two clicks, or already parked.
pub proof fn stop_then_step_parks(e: ClickEngine, draw: JitterDraw)
    ensures
        e.stopped().next(draw).1 == (Action::Park { notify_stopped: false }),
        e.stopped().next(draw).0.phase == Phase::Parked,
        !e.stopped().next(draw).0.state.running,
{
}

/// Stopping twice has the same effect as stopping once.
pub proof fn stop_is_idempotent(e: ClickEngine)
    ensures
        e.stopped().stopped() == e.stopped(),
{
}

/// With the position locked, every cycle's first click is preceded by a
/// move to the locked position.
pub proof fn locked_cycle_moves_first(e: ClickEngine, draw: JitterDraw)
    requires
        e.state.running,
        e.state.config.lock_position_enabled,
        !(e.phase is ClickGap),
        e.state.config.repeat_mode != RepeatMode::Count(0),
    ensures
        match e.next(draw).1 {
            Action::ClickThenGap { move_to, .. } => move_to == Some(e.state.config.lock_position),
            Action::ClickThenSleep { move_to, .. } => move_to == Some(e.state.config.lock_position),
            Action::Park { .. } => false,
        },
{
}

/// The engine and the actions after one step per draw, in order.
pub open spec fn run_steps(e: ClickEngine, draws: Seq<JitterDraw>) -> (ClickEngine, Seq<Action>)
    decreases draws.len(),
{
    if draws.len() == 0 {
        (e, Seq::empty())
    } else {
        let (e1, a) = e.next(draws[0]);
        let (e2, rest) = run_steps(e1, draws.drop_first());
        (e2, seq![a] + rest)
    }
}

/// Started on a count of `n` single clicks, the engine runs exactly `n`
/// click cycles; only the last one announces that it stopped, the flag is
/// then clear, and the next step parks without a second announcement.
pub proof fn finite_count_runs_that_many_cycles(e: ClickEngine, n: u64, draws: Seq<JitterDraw>, last: JitterDraw)
    requires
        e.state.running,
        !(e.phase is ClickGap),
        e.state.config.click_style == ClickStyle::Single,
        e.state.config.repeat_mode == RepeatMode::Count(n),
        n > 0,
        draws.len() == n,
    ensures
        run_steps(e, draws).1.len() == n,
        forall|k: int| 0 <= k < n ==> match #[trigger] run_steps(e, draws).1[k] {
            Action::ClickThenSleep { button, notify_stopped, .. } => button == e.state.config.button
                && (notify_stopped <==> k == n - 1),
            _ => false,
        },
        !run_steps(e, draws).0.state.running,
        run_steps(e, draws).0.next(last).1 == (Action::Park { notify_stopped: false }),
    decreases n,
{
    let (e1, a) = e.next(draws[0]);
    let cfg1 = EngineConfig { repeat_mode: RepeatMode::Count((n - 1) as u64), ..e.state.config };
    assert(e1.state.config == cfg1);
    assert(e1.phase == Phase::Sleeping);
    if n == 1 {
        assert(draws.drop_first().len() == 0);
        assert(run_steps(e1, draws.drop_first()) == (e1, Seq::<Action>::empty()));
        assert(run_steps(e, draws).1 =~= seq![a]);
    } else {
        finite_count_runs_that_many_cycles(e1, (n - 1) as u64, draws.drop_first(), last);
        let rest = run_steps(e1, draws.drop_first()).1;
        assert(run_steps(e, draws).1 =~= seq![a] + rest);
        assert forall|k: int| 0 <= k < n implies match #[trigger] run_steps(e, draws).1[k] {
            Action::ClickThenSleep { button, notify_stopped, .. } => button == e.state.config.button
                && (notify_stopped <==> k == n - 1),
            _ => false,
        } by {
            if k > 0 {
                assert(run_steps(e, draws).1[k] == rest[k - 1]);
            }
        }
    }
}

/// Started on a count of `n` double clicks, the engine runs exactly `n`
/// click cycles of two steps each: a click and the gap, then the second
/// click and the delay. Only the last cycle announces that it stopped, the
/// flag is then clear, and the next step parks without a second announcement.
pub proof fn finite_count_runs_that_many_double_cycles(e: ClickEngine, n: u64, draws: Seq<JitterDraw>, last: JitterDraw)
    requires
        e.state.running,
        !(e.phase is ClickGap),
        e.state.config.click_style == ClickStyle::Double,
        e.state.config.repeat_mode == RepeatMode::Count(n),
        n > 0,
        draws.len() == 2 * n,
    ensures
        run_steps(e, draws).1.len() == 2 * n,
        forall|k: int| 0 <= k < 2 * n ==> match #[trigger] run_steps(e, draws).1[k] {
            Action::ClickThenGap { button, .. } => button == e.state.config.button && k % 2 == 0,
            Action::ClickThenSleep { button, notify_stopped, .. } => button == e.state.config.button
                && k % 2 == 1 && (notify_stopped <==> k == 2 * n - 1),
            _ => false,
        },
        !run_steps(e, draws).0.state.running,
        run_steps(e, draws).0.next(last).1 == (Action::Park { notify_stopped: false }),
    decreases n,
{
    let (e1, a0) = e.next(draws[0]);
    let d1 = draws.drop_first();
    let (e2, a1) = e1.next(d1[0]);
    let d2 = d1.drop_first();
    let cfg1 = EngineConfig { repeat_mode: RepeatMode::Count((n - 1) as u64), ..e.state.config };
    assert(e1.state.config == cfg1);
    assert(e2.state.config == cfg1);
    assert(e2.phase == Phase::Sleeping);
    assert(run_steps(e1, d1) == (run_steps(e2, d2).0, seq![a1] + run_steps(e2, d2).1));
    if n == 1 {
        assert(d2.len() == 0);
        assert(run_steps(e2, d2) == (e2, Seq::<Action>::empty()));
        assert(run_steps(e, draws).1 =~= seq![a0, a1]);
    } else {
        finite_count_runs_that_many_double_cycles(e2, (n - 1) as u64, d2, last);
        let rest = run_steps(e2, d2).1;
        assert(run_steps(e, draws).1 =~= seq![a0, a1] + rest);
        assert forall|k: int| 0 <= k < 2 * n implies match #[trigger] run_steps(e, draws).1[k] {
            Action::ClickThenGap { button, .. } => button == e.state.config.button && k % 2 == 0,
            Action::ClickThenSleep { button, notify_stopped, .. } => button == e.state.config.button
                && k % 2 == 1 && (notify_stopped <==> k == 2 * n - 1),
            _ => false,
        } by {
            if k > 1 {
                assert(run_steps(e, draws).1[k] == rest[k - 2]);
            }
        }
    }
}

} // verus!
