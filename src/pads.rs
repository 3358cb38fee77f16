//! Pad colours, the SysEx frame that sets one, and the effects that the
//! coordinator hands back for its caller to carry out.
use vstd::prelude::*;

verus! {

/// Colour of a control pad that is ready to be pressed.
pub const ENABLED_COLOUR: u8 = 87;

/// Colour of a control pad while controls are suppressed.
pub const DISABLED_COLOUR: u8 = 5;

/// Colour of the control pad whose program is in use.
pub const SELECTED_COLOUR: u8 = 67;

/// SysEx opcode that sets a steady colour.
pub const STEADY_OPCODE: u8 = 0;

/// SysEx opcode that sets a flashing colour.
pub const FLASHING_OPCODE: u8 = 2;

/// Number of pads in the control column.
pub const CONTROL_PADS: u8 = 8;

/// One pad colour change.
#[derive(Clone, Copy, Debug, PartialEq, Eq, Structural)]
pub struct PadPaint {
    pub flash: bool,
    pub pad: u8,
    pub colour: u8,
}

/// The 11-byte SysEx frame that sets `pad` to `colour`, flashing or steady.
pub open spec fn colour_frame(flash: bool, pad: u8, colour: u8) -> Seq<u8> {
    let opcode: u8 = if flash {
        FLASHING_OPCODE
    } else {
        STEADY_OPCODE
    };
    seq![240u8, 0u8, 32u8, 41u8, 2u8, 12u8, 3u8, opcode, pad, colour, 247u8]
}

/// The `i`-th pad of the control column, counted from 1: 19, 29, ..., 89.
pub open spec fn control_pad(i: int) -> u8 {
    (i * 10 + 9) as u8
}

/// `pad` is one of the eight pads of the control column.
pub open spec fn is_control_pad(pad: u8) -> bool {
    19 <= pad <= 89 && pad % 10 == 9
}

impl PadPaint {
    /// The bytes to send to the device for this change.
    pub fn frame(&self) -> (r: Vec<u8>)
        ensures
            r@ == colour_frame(self.flash, self.pad, self.colour),
    {
        let opcode: u8 = if self.flash {
            FLASHING_OPCODE
        } else {
            STEADY_OPCODE
        };
        let r = vec![240u8, 0u8, 32u8, 41u8, 2u8, 12u8, 3u8, opcode, self.pad, self.colour, 247u8];
        assert(r@ =~= colour_frame(self.flash, self.pad, self.colour));
        r
    }
}

/// What an effect stands for, with the program name as a sequence of characters.
pub enum Action {
    Paint(PadPaint),
    Run(Seq<char>),
}

/// Something the caller must do, in the order given: change a pad's colour,
/// or run a program and wait for it to exit.
#[derive(Debug)]
pub enum Effect {
    Paint(PadPaint),
    Run(String),
}

impl View for Effect {
    type V = Action;

    open spec fn view(&self) -> Action {
        match self {
            Effect::Paint(p) => Action::Paint(*p),
            Effect::Run(s) => Action::Run(s@),
        }
    }
}

/// The actions of a sequence of effects.
pub open spec fn actions(effects: Seq<Effect>) -> Seq<Action> {
    effects.map_values(|e: Effect| e@)
}

/// A steady paint of `pad` in `colour`.
pub open spec fn steady(pad: u8, colour: u8) -> Action {
    Action::Paint(PadPaint { flash: false, pad, colour })
}

/// A flashing paint of `pad` in `colour`.
pub open spec fn flashing(pad: u8, colour: u8) -> Action {
    Action::Paint(PadPaint { flash: true, pad, colour })
}

/// The first `n` pads of the control column painted steady in `colour`,
/// from the bottom up, leaving out `skip`.
pub open spec fn bulk_paint(colour: u8, skip: Option<u8>, n: nat) -> Seq<Action>
    decreases n,
{
    if n == 0 {
        seq![]
    } else {
        let before = bulk_paint(colour, skip, (n - 1) as nat);
        let p = control_pad(n as int);
        if skip == Some(p) {
            before
        } else {
            before.push(steady(p, colour))
        }
    }
}

/// The whole control column painted in `colour`, but for `skip`.
pub open spec fn repaint(colour: u8, skip: Option<u8>) -> Seq<Action> {
    bulk_paint(colour, skip, CONTROL_PADS as nat)
}

/// Appending an effect appends its action.
pub proof fn lemma_actions_push(effects: Seq<Effect>, e: Effect)
    ensures
        actions(effects.push(e)) == actions(effects).push(e@),
{
    assert(actions(effects.push(e)) =~= actions(effects).push(e@));
}

/// Paints the control column, but for `skip`, steady in `colour`.
pub fn paint_column(colour: u8, skip: Option<u8>) -> (r: Vec<Effect>)
    ensures
        actions(r@) == repaint(colour, skip),
{
    let mut r: Vec<Effect> = Vec::new();
    let mut i: u8 = 1;
    assert(actions(r@) =~= bulk_paint(colour, skip, 0));
    while i <= CONTROL_PADS
        invariant
            1 <= i <= CONTROL_PADS + 1,
            actions(r@) == bulk_paint(colour, skip, (i - 1) as nat),
        decreases CONTROL_PADS + 1 - i,
    {
        let p: u8 = i * 10 + 9;
        assert(p == control_pad(i as int));
        let is_skipped = match skip {
            Some(s) => s == p,
            None => false,
        };
        if !is_skipped {
            let e = Effect::Paint(PadPaint { flash: false, pad: p, colour });
            proof {
                lemma_actions_push(r@, e);
            }
            r.push(e);
        }
        i = i + 1;
    }
    r
}

} // verus!
