use vstd::prelude::*;

verus! {

/// The mouse button that a click cycle presses.
#[derive(Clone, Copy, Debug, PartialEq, Eq, Structural)]
pub enum MouseButton {
    Left,
    Right,
    Middle,
}

/// One click per cycle, or two separated by a short gap.
#[derive(Clone, Copy, Debug, PartialEq, Eq, Structural)]
pub enum ClickStyle {
    Single,
    Double,
}

/// How many cycles remain: without end, or a finite number.
#[derive(Clone, Copy, Debug, PartialEq, Eq, Structural)]
pub enum RepeatMode {
    Infinite,
    Count(u64),
}

/// A screen coordinate.
#[derive(Clone, Copy, Debug, PartialEq, Eq, Structural)]
pub struct Point {
    pub x: i32,
    pub y: i32,
}

/// Everything the user can set for the engine.
#[derive(Clone, Copy, Debug, PartialEq, Eq, Structural)]
pub struct EngineConfig {
    pub interval_ms: u64,
    pub jitter_enabled: bool,
    pub jitter_ms: u64,
    pub button: MouseButton,
    pub click_style: ClickStyle,
    pub repeat_mode: RepeatMode,
    pub lock_position_enabled: bool,
    pub lock_position: Point,
}

/// The shortest interval the engine starts with.
pub const DEFAULT_INTERVAL_MS: u64 = 5;

/// The configuration at process start: the minimum interval, endless
/// repetition, single left clicks, no jitter and no locked position.
pub open spec fn default_config_spec() -> EngineConfig {
    EngineConfig {
        interval_ms: DEFAULT_INTERVAL_MS,
        jitter_enabled: false,
        jitter_ms: 0,
        button: MouseButton::Left,
        click_style: ClickStyle::Single,
        repeat_mode: RepeatMode::Infinite,
        lock_position_enabled: false,
        lock_position: Point { x: 0, y: 0 },
    }
}

impl EngineConfig {
    pub fn default_config() -> (r: EngineConfig)
        ensures
            r == default_config_spec(),
    {
        EngineConfig {
            interval_ms: DEFAULT_INTERVAL_MS,
            jitter_enabled: false,
            jitter_ms: 0,
            button: MouseButton::Left,
            click_style: ClickStyle::Single,
            repeat_mode: RepeatMode::Infinite,
            lock_position_enabled: false,
            lock_position: Point { x: 0, y: 0 },
        }
    }
}

/// The button that a user-facing numeric code names: 1 left, 2 right,
/// 3 middle, anything else none.
pub open spec fn button_of_code(code: i32) -> Option<MouseButton> {
    if code == 1 {
        Some(MouseButton::Left)
    } else if code == 2 {
        Some(MouseButton::Right)
    } else if code == 3 {
        Some(MouseButton::Middle)
    } else {
        None
    }
}

pub fn button_from_code(code: i32) -> (r: Option<MouseButton>)
    ensures
        r == button_of_code(code),
{
    if code == 1 {
        Some(MouseButton::Left)
    } else if code == 2 {
        Some(MouseButton::Right)
    } else if code == 3 {
        Some(MouseButton::Middle)
    } else {
        None
    }
}

/// Code 2 asks for a double click; every other code for a single one.
pub open spec fn style_of_code(code: i32) -> ClickStyle {
    if code == 2 {
        ClickStyle::Double
    } else {
        ClickStyle::Single
    }
}

pub fn style_from_code(code: i32) -> (r: ClickStyle)
    ensures
        r == style_of_code(code),
{
    if code == 2 {
        ClickStyle::Double
    } else {
        ClickStyle::Single
    }
}

/// Addition that stops at the largest representable delay.
pub open spec fn sat_add(a: u64, b: u64) -> u64 {
    if a + b > u64::MAX {
        u64::MAX
    } else {
        (a + b) as u64
    }
}

/// Subtraction that stops at zero.
pub open spec fn sat_sub(a: u64, b: u64) -> u64 {
    if a < b {
        0
    } else {
        (a - b) as u64
    }
}

/// One random draw for a cycle's jitter: a magnitude in `[0, jitter_ms]`
/// and a fair coin that picks the sign.
#[derive(Clone, Copy, Debug, PartialEq, Eq, Structural)]
pub struct JitterDraw {
    pub magnitude: u64,
    pub add: bool,
}

/// The draw taken from one uniformly random word: its low bit is the coin,
/// and the rest, reduced into `[0, jitter_ms]`, is the magnitude.
pub open spec fn draw_of_word(word: u64, jitter_ms: u64) -> JitterDraw {
    JitterDraw {
        magnitude: if jitter_ms == u64::MAX {
            (word / 2) as u64
        } else {
            ((word / 2) as int % (jitter_ms as int + 1)) as u64
        },
        add: word % 2 == 1,
    }
}

pub fn jitter_draw_from_word(word: u64, jitter_ms: u64) -> (r: JitterDraw)
    ensures
        r == draw_of_word(word, jitter_ms),
        r.magnitude <= jitter_ms,
{
    let rest = word / 2;
    let magnitude = if jitter_ms == u64::MAX {
        rest
    } else {
        rest % (jitter_ms + 1)
    };
    JitterDraw { magnitude, add: word % 2 == 1 }
}

/// The delay after a cycle: the interval, moved up or down by the drawn
/// magnitude when jitter is on and its bound is positive.
pub open spec fn delay_spec(interval_ms: u64, jitter_enabled: bool, jitter_ms: u64, draw: JitterDraw) -> u64 {
    if jitter_enabled && jitter_ms > 0 {
        if draw.add {
            sat_add(interval_ms, draw.magnitude)
        } else {
            sat_sub(interval_ms, draw.magnitude)
        }
    } else {
        interval_ms
    }
}

pub fn compute_delay(interval_ms: u64, jitter_enabled: bool, jitter_ms: u64, draw: JitterDraw) -> (r: u64)
    requires
        draw.magnitude <= jitter_ms,
    ensures
        r == delay_spec(interval_ms, jitter_enabled, jitter_ms, draw),
        sat_sub(interval_ms, jitter_ms) <= r <= sat_add(interval_ms, jitter_ms),
{
    if jitter_enabled && jitter_ms > 0 {
        if draw.add {
            interval_ms.saturating_add(draw.magnitude)
        } else {
            interval_ms.saturating_sub(draw.magnitude)
        }
    } else {
        interval_ms
    }
}

/// Every delay lies within the jitter bound around the interval, and the
/// coin alone decides between the raised and the lowered delay.
pub proof fn delay_within_jitter(interval_ms: u64, jitter_enabled: bool, jitter_ms: u64, draw: JitterDraw)
    requires
        draw.magnitude <= jitter_ms,
    ensures
        sat_sub(interval_ms, jitter_ms) <= delay_spec(interval_ms, jitter_enabled, jitter_ms, draw),
        delay_spec(interval_ms, jitter_enabled, jitter_ms, draw) <= sat_add(interval_ms, jitter_ms),
        jitter_enabled && jitter_ms > 0 && draw.add ==> delay_spec(interval_ms, jitter_enabled, jitter_ms, draw)
            == sat_add(interval_ms, draw.magnitude),
        jitter_enabled && jitter_ms > 0 && !draw.add ==> delay_spec(interval_ms, jitter_enabled, jitter_ms, draw)
            == sat_sub(interval_ms, draw.magnitude),
{
}

} // verus!
