use vstd::prelude::*;
use crate::config::{
    button_from_code, button_of_code, style_from_code, style_of_code, ClickStyle, MouseButton, Point,
};

verus! {

/// One input the platform is asked to synthesize.
#[derive(Clone, Copy, Debug, PartialEq, Eq, Structural)]
pub enum Effect {
    MoveTo(Point),
    Click(MouseButton),
}

/// The inputs that one click request stands for: a move to the picked
/// position if there is one, then one or two clicks of the coded button,
/// or none for an unknown code.
pub open spec fn click_effects_spec(button_code: i32, style_code: i32, picked: bool, x: i32, y: i32) -> Seq<Effect> {
    let moves = if picked {
        seq![Effect::MoveTo(Point { x, y })]
    } else {
        Seq::<Effect>::empty()
    };
    let clicks = match button_of_code(button_code) {
        Some(b) => if style_of_code(style_code) == ClickStyle::Double {
            seq![Effect::Click(b), Effect::Click(b)]
        } else {
            seq![Effect::Click(b)]
        },
        None => Seq::<Effect>::empty(),
    };
    moves + clicks
}

pub fn click_effects(button_code: i32, style_code: i32, picked: bool, x: i32, y: i32) -> (r: Vec<Effect>)
    ensures
        r@ == click_effects_spec(button_code, style_code, picked, x, y),
{
    let mut out: Vec<Effect> = Vec::new();
    if picked {
        out.push(Effect::MoveTo(Point { x, y }));
    }
    match button_from_code(button_code) {
        Some(b) => {
            out.push(Effect::Click(b));
            if style_from_code(style_code) == ClickStyle::Double {
                out.push(Effect::Click(b));
            }
        },
        None => {},
    }
    proof {
        let moves = if picked {
            seq![Effect::MoveTo(Point { x, y })]
        } else {
            Seq::<Effect>::empty()
        };
        let clicks = match button_of_code(button_code) {
            Some(b) => if style_of_code(style_code) == ClickStyle::Double {
                seq![Effect::Click(b), Effect::Click(b)]
            } else {
                seq![Effect::Click(b)]
            },
            None => Seq::<Effect>::empty(),
        };
        assert(out@ =~= moves + clicks);
    }
    out
}

/// Whether the primary button is down in a polled button table, where
/// index 1 is the primary button and a missing entry counts as released.
pub open spec fn primary_pressed(buttons: Seq<bool>) -> bool {
    buttons.len() > 1 && buttons[1]
}

/// Waits, poll by poll, for the primary button to go down, and reports the
/// pointer position at that poll. It starts as if the button were held, so a
/// button already down at the start must be released and pressed again.
#[derive(Clone, Copy, Debug, PartialEq, Eq, Structural)]
pub struct PositionPicker {
    pub was_pressed: bool,
}

impl PositionPicker {
    pub fn new() -> (r: PositionPicker)
        ensures
            r.was_pressed,
    {
        PositionPicker { was_pressed: true }
    }

    /// Takes one poll. Returns the position exactly when the primary button
    /// is down now and was not at the previous poll.
    pub fn observe(&mut self, buttons: &Vec<bool>, x: i32, y: i32) -> (r: Option<Point>)
        ensures
            final(self).was_pressed == primary_pressed(buttons@),
            old(self).was_pressed ==> r is None,
            r == (if primary_pressed(buttons@) && !old(self).was_pressed {
                Some(Point { x, y })
            } else {
                None
            }),
    {
        let pressed = buttons.len() > 1 && buttons[1];
        let fresh = pressed && !self.was_pressed;
        self.was_pressed = pressed;
        if fresh {
            Some(Point { x, y })
        } else {
            None
        }
    }
}

} // verus!
