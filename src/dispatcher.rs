//! The command table: which program runs when a control pad is engaged, and
//! which when it is released.
use std::collections::HashMap;
use vstd::prelude::*;
use crate::pads::{
    actions, flashing, lemma_actions_push, steady, is_control_pad, Action, Effect, PadPaint,
    ENABLED_COLOUR, SELECTED_COLOUR,
};

verus! {

/// The character of a decimal digit.
pub open spec fn digit_char(d: int) -> char {
    if d == 0 {
        '0'
    } else if d == 1 {
        '1'
    } else if d == 2 {
        '2'
    } else if d == 3 {
        '3'
    } else if d == 4 {
        '4'
    } else if d == 5 {
        '5'
    } else if d == 6 {
        '6'
    } else if d == 7 {
        '7'
    } else if d == 8 {
        '8'
    } else {
        '9'
    }
}

/// The two decimal digits of a control pad.
pub open spec fn pad_digits(pad: u8) -> Seq<char> {
    seq![digit_char(pad as int / 10), digit_char(pad as int % 10)]
}

/// Name of the program that engages `pad`: `ON-CTL.<pad>`.
pub open spec fn engage_name(pad: u8) -> Seq<char> {
    seq!['O', 'N', '-', 'C', 'T', 'L', '.'] + pad_digits(pad)
}

/// Name of the program that releases `pad`: `OFF-CTL.<pad>`.
pub open spec fn release_name(pad: u8) -> Seq<char> {
    seq!['O', 'F', 'F', '-', 'C', 'T', 'L', '.'] + pad_digits(pad)
}

/// What releasing the engaged pad `last` does: flash it, run its release
/// program, paint it enabled. Nothing where it has no release program.
pub open spec fn release_actions(down: Map<u8, String>, last: Option<u8>) -> Seq<Action> {
    match last {
        Some(x) => if down.contains_key(x) {
            seq![flashing(x, SELECTED_COLOUR), Action::Run(down[x]@), steady(x, ENABLED_COLOUR)]
        } else {
            seq![]
        },
        None => seq![],
    }
}

/// What engaging `ctl` does: flash it, run its engage program, paint it
/// selected. Nothing where it has no engage program.
pub open spec fn engage_actions(up: Map<u8, String>, ctl: u8) -> Seq<Action> {
    if up.contains_key(ctl) {
        seq![flashing(ctl, SELECTED_COLOUR), Action::Run(up[ctl]@), steady(ctl, SELECTED_COLOUR)]
    } else {
        seq![]
    }
}

/// Everything that a press of `ctl` sets off: the release of `last`, then
/// the engaging of `ctl`.
pub open spec fn activation_actions(
    up: Map<u8, String>,
    down: Map<u8, String>,
    last: Option<u8>,
    ctl: u8,
) -> Seq<Action> {
    release_actions(down, last) + engage_actions(up, ctl)
}

/// Matches a control pad to the programs to run for it.
#[derive(Debug)]
pub struct Dispatcher {
    /// Program run when a pad is engaged.
    pub up_table: HashMap<u8, String>,
    /// Program run when another pad is engaged after this one.
    pub down_table: HashMap<u8, String>,
    /// The pad engaged last; `None` at the start.
    pub last: Option<u8>,
}

impl Dispatcher {
    /// The tables hold a program of each kind for the control column and
    /// nothing else.
    pub open spec fn standard_tables(&self) -> bool {
        &&& forall|p: u8| #[trigger] self.up_table@.contains_key(p) <==> is_control_pad(p)
        &&& forall|p: u8| #[trigger] self.down_table@.contains_key(p) <==> is_control_pad(p)
        &&& forall|p: u8| is_control_pad(p) ==> #[trigger] self.up_table@[p]@ == engage_name(p)
        &&& forall|p: u8| is_control_pad(p) ==> #[trigger] self.down_table@[p]@ == release_name(p)
    }

    /// A dispatcher with a program of each kind for every pad of the
    /// control column, and no pad engaged.
    pub fn new() -> (r: Dispatcher)
        ensures
            r.standard_tables(),
            r.last is None,
    {
        let mut up_table: HashMap<u8, String> = HashMap::new();
        let mut down_table: HashMap<u8, String> = HashMap::new();
        up_table.insert(19, "ON-CTL.19".to_owned());
        up_table.insert(29, "ON-CTL.29".to_owned());
        up_table.insert(39, "ON-CTL.39".to_owned());
        up_table.insert(49, "ON-CTL.49".to_owned());
        up_table.insert(59, "ON-CTL.59".to_owned());
        up_table.insert(69, "ON-CTL.69".to_owned());
        up_table.insert(79, "ON-CTL.79".to_owned());
        up_table.insert(89, "ON-CTL.89".to_owned());
        down_table.insert(19, "OFF-CTL.19".to_owned());
        down_table.insert(29, "OFF-CTL.29".to_owned());
        down_table.insert(39, "OFF-CTL.39".to_owned());
        down_table.insert(49, "OFF-CTL.49".to_owned());
        down_table.insert(59, "OFF-CTL.59".to_owned());
        down_table.insert(69, "OFF-CTL.69".to_owned());
        down_table.insert(79, "OFF-CTL.79".to_owned());
        down_table.insert(89, "OFF-CTL.89".to_owned());
        proof {
            reveal_strlit("ON-CTL.19");
            reveal_strlit("ON-CTL.29");
            reveal_strlit("ON-CTL.39");
            reveal_strlit("ON-CTL.49");
            reveal_strlit("ON-CTL.59");
            reveal_strlit("ON-CTL.69");
            reveal_strlit("ON-CTL.79");
            reveal_strlit("ON-CTL.89");
            reveal_strlit("OFF-CTL.19");
            reveal_strlit("OFF-CTL.29");
            reveal_strlit("OFF-CTL.39");
            reveal_strlit("OFF-CTL.49");
            reveal_strlit("OFF-CTL.59");
            reveal_strlit("OFF-CTL.69");
            reveal_strlit("OFF-CTL.79");
            reveal_strlit("OFF-CTL.89");
            assert forall|p: u8| is_control_pad(p) implies p == 19 || p == 29 || p == 39 || p == 49
                || p == 59 || p == 69 || p == 79 || p == 89 by {}
            assert(up_table@[19]@ =~= engage_name(19));
            assert(up_table@[29]@ =~= engage_name(29));
            assert(up_table@[39]@ =~= engage_name(39));
            assert(up_table@[49]@ =~= engage_name(49));
            assert(up_table@[59]@ =~= engage_name(59));
            assert(up_table@[69]@ =~= engage_name(69));
            assert(up_table@[79]@ =~= engage_name(79));
            assert(up_table@[89]@ =~= engage_name(89));
            assert(down_table@[19]@ =~= release_name(19));
            assert(down_table@[29]@ =~= release_name(29));
            assert(down_table@[39]@ =~= release_name(39));
            assert(down_table@[49]@ =~= release_name(49));
            assert(down_table@[59]@ =~= release_name(59));
            assert(down_table@[69]@ =~= release_name(69));
            assert(down_table@[79]@ =~= release_name(79));
            assert(down_table@[89]@ =~= release_name(89));
        }
        Dispatcher { up_table, down_table, last: None }
    }

    /// A control pad `ctl` has been pressed: release the pad engaged before
    /// (even where it is `ctl` itself), then engage `ctl`, which becomes the
    /// engaged pad whether or not it has a program.
    pub fn run_ctl(&mut self, ctl: u8) -> (r: Vec<Effect>)
        ensures
            final(self).up_table@ == old(self).up_table@,
            final(self).down_table@ == old(self).down_table@,
            final(self).last == Some(ctl),
            actions(r@) == activation_actions(
                old(self).up_table@,
                old(self).down_table@,
                old(self).last,
                ctl,
            ),
    {
        let mut r: Vec<Effect> = Vec::new();
        assert(actions(r@) =~= seq![]);
        if let Some(x) = self.last {
            match self.down_table.get(&x) {
                Some(cmd) => {
                    let e1 = Effect::Paint(PadPaint { flash: true, pad: x, colour: SELECTED_COLOUR });
                    proof { lemma_actions_push(r@, e1); }
                    r.push(e1);
                    let e2 = Effect::Run(cmd.clone());
                    proof { lemma_actions_push(r@, e2); }
                    r.push(e2);
                    let e3 = Effect::Paint(PadPaint { flash: false, pad: x, colour: ENABLED_COLOUR });
                    proof { lemma_actions_push(r@, e3); }
                    r.push(e3);
                },
                None => {},
            }
        }
        assert(actions(r@) =~= release_actions(self.down_table@, self.last));
        let ghost released = r@;
        self.last = Some(ctl);
        match self.up_table.get(&ctl) {
            Some(cmd) => {
                let e1 = Effect::Paint(PadPaint { flash: true, pad: ctl, colour: SELECTED_COLOUR });
                proof { lemma_actions_push(r@, e1); }
                r.push(e1);
                let e2 = Effect::Run(cmd.clone());
                proof { lemma_actions_push(r@, e2); }
                r.push(e2);
                let e3 = Effect::Paint(PadPaint { flash: false, pad: ctl, colour: SELECTED_COLOUR });
                proof { lemma_actions_push(r@, e3); }
                r.push(e3);
            },
            None => {},
        }
        assert(actions(r@) =~= actions(released) + engage_actions(self.up_table@, ctl));
        r
    }
}

/// Pressing a pad that is already engaged is no repeat to skip: it runs the
/// pad's release program, then its engage program once more.
pub proof fn lemma_repeat_press_reruns(up: Map<u8, String>, down: Map<u8, String>, x: u8)
    requires
        up.contains_key(x),
        down.contains_key(x),
    ensures
        activation_actions(up, down, Some(x), x) == seq![
            flashing(x, SELECTED_COLOUR),
            Action::Run(down[x]@),
            steady(x, ENABLED_COLOUR),
            flashing(x, SELECTED_COLOUR),
            Action::Run(up[x]@),
            steady(x, SELECTED_COLOUR),
        ],
{
    assert(activation_actions(up, down, Some(x), x) =~= seq![
        flashing(x, SELECTED_COLOUR),
        Action::Run(down[x]@),
        steady(x, ENABLED_COLOUR),
        flashing(x, SELECTED_COLOUR),
        Action::Run(up[x]@),
        steady(x, SELECTED_COLOUR),
    ]);
}

} // verus!
