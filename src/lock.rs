//! The four-state lock gesture: 91, 92, 93, 94 locks; 94, 93, 92, 91 unlocks.
use vstd::prelude::*;

verus! {

/// First pad of the ascending lock gesture, and last of the unlock gesture.
pub const GESTURE_LOW: u8 = 91;

/// Last pad of the ascending lock gesture, and first of the unlock gesture.
pub const GESTURE_HIGH: u8 = 94;

/// Where the lock gesture stands.
#[derive(Clone, Copy, Debug, PartialEq, Eq, Structural)]
pub enum LockingState {
    Locked,
    Unlocked,
    Locking,
    Unlocking,
}

/// `pad` is the pad after `last`, one step up.
pub open spec fn follows(last: Option<u8>, pad: u8) -> bool {
    match last {
        Some(l) => l as int + 1 == pad as int,
        None => false,
    }
}

/// `pad` is the pad before `last`, one step down.
pub open spec fn precedes(last: Option<u8>, pad: u8) -> bool {
    match last {
        Some(l) => l as int == pad as int + 1,
        None => false,
    }
}

/// The lock state after a control press of `pad`, when the previous
/// qualifying press was `last`.
pub open spec fn next_lock_state(state: LockingState, last: Option<u8>, pad: u8) -> LockingState {
    match state {
        LockingState::Unlocked => if pad == GESTURE_LOW {
            LockingState::Locking
        } else {
            LockingState::Unlocked
        },
        LockingState::Locking => if !follows(last, pad) {
            LockingState::Unlocked
        } else if pad == GESTURE_HIGH {
            LockingState::Locked
        } else {
            LockingState::Locking
        },
        LockingState::Locked => if pad == GESTURE_HIGH {
            LockingState::Unlocking
        } else {
            LockingState::Locked
        },
        LockingState::Unlocking => if !precedes(last, pad) {
            LockingState::Locked
        } else if pad == GESTURE_LOW {
            LockingState::Unlocked
        } else {
            LockingState::Unlocking
        },
    }
}

/// A press of `pad` in `state` is handed on to the dispatcher: only while
/// unlocked, and never for the gesture pads or those above them.
pub open spec fn passes_to_dispatcher(state: LockingState, pad: u8) -> bool {
    state == LockingState::Unlocked && pad < GESTURE_LOW
}

impl LockingState {
    /// The state after a press of `pad` that followed a press of `last`.
    pub fn next(self, last: Option<u8>, pad: u8) -> (r: LockingState)
        ensures
            r == next_lock_state(self, last, pad),
    {
        match self {
            LockingState::Unlocked => {
                if pad == GESTURE_LOW {
                    LockingState::Locking
                } else {
                    LockingState::Unlocked
                }
            },
            LockingState::Locking => {
                let in_step = match last {
                    Some(l) => l < 255 && l + 1 == pad,
                    None => false,
                };
                if !in_step {
                    LockingState::Unlocked
                } else if pad == GESTURE_HIGH {
                    LockingState::Locked
                } else {
                    LockingState::Locking
                }
            },
            LockingState::Locked => {
                if pad == GESTURE_HIGH {
                    LockingState::Unlocking
                } else {
                    LockingState::Locked
                }
            },
            LockingState::Unlocking => {
                let in_step = match last {
                    Some(l) => pad < 255 && l == pad + 1,
                    None => false,
                };
                if !in_step {
                    LockingState::Locked
                } else if pad == GESTURE_LOW {
                    LockingState::Unlocked
                } else {
                    LockingState::Unlocking
                }
            },
        }
    }

    /// Whether a press of `pad` in this state reaches the dispatcher.
    pub fn passes(self, pad: u8) -> (r: bool)
        ensures
            r == passes_to_dispatcher(self, pad),
    {
        self == LockingState::Unlocked && pad < GESTURE_LOW
    }
}

} // verus!
