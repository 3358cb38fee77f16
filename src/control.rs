//! The coordinator: the state of the control surface, the cooldown clock
//! that suppresses controls after notes, and the handling of each event.
use vstd::prelude::*;
use crate::dispatcher::{activation_actions, Dispatcher};
use crate::lock::{next_lock_state, passes_to_dispatcher, LockingState, GESTURE_HIGH};
use crate::pads::{actions, paint_column, repaint, Action, Effect, DISABLED_COLOUR, ENABLED_COLOUR};

verus! {

/// Status byte of a control change.
pub const CONTROL_CHANGE: u8 = 176;

/// Status byte of a note.
pub const NOTE_ON: u8 = 144;

/// Control pads below this one are noise from the device.
pub const LOWEST_CONTROL: u8 = 19;

/// Clock ticks in a second.
pub const TICKS_PER_SECOND: u64 = 10;

/// Seconds for which controls are suppressed after a note.
pub const SLEEP_DURATION: u64 = 2;

/// What the coordinator knows of the surface.
#[derive(Debug)]
pub struct LPXState {
    /// The last qualifying control pad pressed; `None` at the start.
    pub last_pad: Option<u8>,
    /// Whether the control column is painted enabled.
    pub active: bool,
    pub locking_state: LockingState,
}

impl LPXState {
    /// No pad pressed, column not yet painted, unlocked.
    pub fn new() -> (r: LPXState)
        ensures
            r.last_pad is None,
            !r.active,
            r.locking_state == LockingState::Unlocked,
    {
        LPXState { last_pad: None, active: false, locking_state: LockingState::Unlocked }
    }
}

/// The colour of the control column when enabled or disabled.
pub open spec fn column_colour(enable: bool) -> u8 {
    if enable {
        ENABLED_COLOUR
    } else {
        DISABLED_COLOUR
    }
}

/// The paints that bring the column from `active` to `enable`, sparing `skip`.
pub open spec fn enable_actions(active: bool, enable: bool, skip: Option<u8>) -> Seq<Action> {
    if active != enable {
        repaint(column_colour(enable), skip)
    } else {
        seq![]
    }
}

/// Paints the control column enabled or disabled, sparing the last pad
/// pressed, where it is not painted so already.
pub fn enable_lpx(enable: bool, lpx_state: &mut LPXState) -> (r: Vec<Effect>)
    ensures
        final(lpx_state).active == enable,
        final(lpx_state).last_pad == old(lpx_state).last_pad,
        final(lpx_state).locking_state == old(lpx_state).locking_state,
        actions(r@) == enable_actions(old(lpx_state).active, enable, old(lpx_state).last_pad),
{
    if lpx_state.active != enable {
        let colour: u8 = if enable {
            ENABLED_COLOUR
        } else {
            DISABLED_COLOUR
        };
        let r = paint_column(colour, lpx_state.last_pad);
        lpx_state.active = enable;
        r
    } else {
        let r: Vec<Effect> = Vec::new();
        assert(actions(r@) =~= seq![]);
        r
    }
}

/// A control change that the coordinator acts on: a pad of the control
/// range, pressed rather than released.
pub open spec fn is_qualifying_control(m: Seq<u8>) -> bool {
    &&& m.len() == 3
    &&& m[0] == CONTROL_CHANGE
    &&& m[1] >= LOWEST_CONTROL
    &&& m[2] > 0
}

/// The lock state after message `m`.
pub open spec fn lock_after(state: LockingState, last: Option<u8>, m: Seq<u8>) -> LockingState {
    if is_qualifying_control(m) {
        next_lock_state(state, last, m[1])
    } else {
        state
    }
}

/// The last pad pressed after message `m`.
pub open spec fn last_after(last: Option<u8>, m: Seq<u8>) -> Option<u8> {
    if is_qualifying_control(m) {
        Some(m[1])
    } else {
        last
    }
}

/// Message `m` in lock state `state` reaches the dispatcher.
pub open spec fn dispatches(state: LockingState, m: Seq<u8>) -> bool {
    is_qualifying_control(m) && passes_to_dispatcher(state, m[1])
}

/// How a control change `m` takes the dispatcher and the surface state from
/// `d0` and `s0` to `d1` and `s1`, with the actions `acts`.
pub open spec fn control_outcome(
    d0: Dispatcher,
    s0: LPXState,
    d1: Dispatcher,
    s1: LPXState,
    m: Seq<u8>,
    acts: Seq<Action>,
) -> bool {
    &&& s1.locking_state == lock_after(s0.locking_state, s0.last_pad, m)
    &&& s1.last_pad == last_after(s0.last_pad, m)
    &&& s1.active == s0.active
    &&& if dispatches(s0.locking_state, m) {
        &&& d1.up_table@ == d0.up_table@
        &&& d1.down_table@ == d0.down_table@
        &&& d1.last == Some(m[1])
        &&& acts == activation_actions(d0.up_table@, d0.down_table@, d0.last, m[1])
    } else {
        &&& d1 == d0
        &&& acts.len() == 0
    }
}

/// Handles a control change: runs the lock gesture, records the pad, and
/// hands it to the dispatcher where the gesture lets it through.
pub fn process_message(
    message: &[u8; 3],
    dispatcher: &mut Dispatcher,
    lpx_state: &mut LPXState,
) -> (r: Vec<Effect>)
    ensures
        control_outcome(
            *old(dispatcher),
            *old(lpx_state),
            *final(dispatcher),
            *final(lpx_state),
            message@,
            actions(r@),
        ),
{
    let status = message[0];
    let pad = message[1];
    let vel = message[2];
    let mut r: Vec<Effect> = Vec::new();
    if status == CONTROL_CHANGE && pad >= LOWEST_CONTROL && vel > 0 {
        let state = lpx_state.locking_state;
        let passes = state.passes(pad);
        lpx_state.locking_state = state.next(lpx_state.last_pad, pad);
        lpx_state.last_pad = Some(pad);
        if passes {
            r = dispatcher.run_ctl(pad);
        }
    }
    assert(r@.len() == 0 ==> actions(r@).len() == 0);
    r
}

/// `a + b`, held at the largest `u64`.
pub open spec fn saturating(a: int, b: int) -> u64 {
    if a + b > u64::MAX {
        u64::MAX
    } else {
        (a + b) as u64
    }
}

/// The tick at which controls wake after a note struck at tick `counter`.
pub open spec fn wake_tick(counter: u64, seconds: u64) -> u64 {
    saturating(counter as int, seconds as int * TICKS_PER_SECOND as int)
}

/// The clock `(counter, sleeping)` after one tick: the counter advances, and
/// both return to zero once it reaches a wake tick that is set.
pub open spec fn tick_clock(clock: (u64, u64)) -> (u64, u64) {
    let c = saturating(clock.0 as int, 1);
    if c >= clock.1 && clock.1 != 0 {
        (0, 0)
    } else {
        (c, clock.1)
    }
}

/// The clock after `k` ticks.
pub open spec fn ticks(clock: (u64, u64), k: nat) -> (u64, u64)
    decreases k,
{
    if k == 0 {
        clock
    } else {
        tick_clock(ticks(clock, (k - 1) as nat))
    }
}

/// The surface state with the clock that suppresses controls after notes.
#[derive(Debug)]
pub struct LpxControl {
    pub lpx_state: LPXState,
    /// Ticks counted since the clock was last reset.
    pub counter: u64,
    /// The tick at which controls wake; zero while they are awake.
    pub sleeping: u64,
}

impl LpxControl {
    /// A fresh surface state and an idle clock.
    pub fn new() -> (r: LpxControl)
        ensures
            r.lpx_state.last_pad is None,
            !r.lpx_state.active,
            r.lpx_state.locking_state == LockingState::Unlocked,
            r.counter == 0,
            r.sleeping == 0,
    {
        LpxControl { lpx_state: LPXState::new(), counter: 0, sleeping: 0 }
    }

    /// Whether controls are suppressed.
    pub fn sleeping(&self) -> (r: bool)
        ensures
            r == (self.sleeping != 0),
    {
        self.sleeping != 0
    }

    /// Suppresses controls for `s` seconds from now, and paints the column
    /// disabled, sparing the last pad pressed.
    pub fn sleep(&mut self, s: u64) -> (r: Vec<Effect>)
        ensures
            final(self).sleeping == wake_tick(old(self).counter, s),
            final(self).counter == old(self).counter,
            !final(self).lpx_state.active,
            final(self).lpx_state.last_pad == old(self).lpx_state.last_pad,
            final(self).lpx_state.locking_state == old(self).lpx_state.locking_state,
            actions(r@) == enable_actions(
                old(self).lpx_state.active,
                false,
                old(self).lpx_state.last_pad,
            ),
    {
        let span: u64 = if s > u64::MAX / TICKS_PER_SECOND {
            u64::MAX
        } else {
            s * TICKS_PER_SECOND
        };
        self.sleeping = self.counter.saturating_add(span);
        enable_lpx(false, &mut self.lpx_state)
    }

    /// Paints the whole column enabled, with no pad spared, and forgets the
    /// last pad pressed.
    pub fn start(&mut self) -> (r: Vec<Effect>)
        ensures
            final(self).lpx_state.active,
            final(self).lpx_state.last_pad is None,
            final(self).lpx_state.locking_state == old(self).lpx_state.locking_state,
            final(self).counter == old(self).counter,
            final(self).sleeping == old(self).sleeping,
            actions(r@) == repaint(ENABLED_COLOUR, None),
    {
        self.lpx_state.active = false;
        self.lpx_state.last_pad = None;
        enable_lpx(true, &mut self.lpx_state)
    }

    /// One tick of the clock; where controls wake, the column is painted
    /// enabled, sparing the last pad pressed.
    pub fn tick(&mut self) -> (r: Vec<Effect>)
        ensures
            (final(self).counter, final(self).sleeping) == tick_clock(
                (old(self).counter, old(self).sleeping),
            ),
            final(self).lpx_state.last_pad == old(self).lpx_state.last_pad,
            final(self).lpx_state.locking_state == old(self).lpx_state.locking_state,
            tick_clock((old(self).counter, old(self).sleeping)).1 == 0 && old(self).sleeping
                != 0 ==> {
                &&& final(self).lpx_state.active
                &&& actions(r@) == enable_actions(
                    old(self).lpx_state.active,
                    true,
                    old(self).lpx_state.last_pad,
                )
            },
            !(tick_clock((old(self).counter, old(self).sleeping)).1 == 0 && old(self).sleeping
                != 0) ==> {
                &&& final(self).lpx_state.active == old(self).lpx_state.active
                &&& r@.len() == 0
            },
    {
        self.counter = self.counter.saturating_add(1);
        if self.counter >= self.sleeping && self.sleeping != 0 {
            self.counter = 0;
            self.sleeping = 0;
            enable_lpx(true, &mut self.lpx_state)
        } else {
            Vec::new()
        }
    }
}

/// A control change of three bytes.
pub open spec fn is_control_change(m: Seq<u8>) -> bool {
    m.len() == 3 && m[0] == CONTROL_CHANGE
}

/// A note struck: three bytes, note status, nonzero velocity.
pub open spec fn is_note_strike(m: Seq<u8>) -> bool {
    m.len() == 3 && m[0] == NOTE_ON && m[2] > 0
}

/// Everything the coordinator holds: the command table and the surface.
#[derive(Debug)]
pub struct MidiCommTools {
    pub dispatcher: Dispatcher,
    pub lpx_control: LpxControl,
}

impl MidiCommTools {
    /// Starts the coordinator: the standard command table, no pad engaged,
    /// unlocked, an idle clock, and the whole control column painted
    /// enabled, with no pad spared. Returns it with the startup paints.
    pub fn new() -> (r: (MidiCommTools, Vec<Effect>))
        ensures
            r.0.dispatcher.standard_tables(),
            r.0.dispatcher.last is None,
            r.0.lpx_control.lpx_state.last_pad is None,
            r.0.lpx_control.lpx_state.active,
            r.0.lpx_control.lpx_state.locking_state == LockingState::Unlocked,
            r.0.lpx_control.counter == 0,
            r.0.lpx_control.sleeping == 0,
            actions(r.1@) == repaint(ENABLED_COLOUR, None),
    {
        let mut tools = MidiCommTools { dispatcher: Dispatcher::new(), lpx_control: LpxControl::new() };
        let effects = tools.lpx_control.start();
        (tools, effects)
    }

    /// Handles one message from the device. A control change is processed
    /// unless controls are suppressed; a note struck while not locked
    /// suppresses controls for `SLEEP_DURATION` seconds; anything else is
    /// ignored.
    pub fn handle_message(&mut self, message: &[u8]) -> (r: Vec<Effect>)
        ensures
            is_control_change(message@) && old(self).lpx_control.sleeping == 0 ==> {
                &&& control_outcome(
                    old(self).dispatcher,
                    old(self).lpx_control.lpx_state,
                    final(self).dispatcher,
                    final(self).lpx_control.lpx_state,
                    message@,
                    actions(r@),
                )
                &&& final(self).lpx_control.counter == old(self).lpx_control.counter
                &&& final(self).lpx_control.sleeping == 0
            },
            is_note_strike(message@) && old(self).lpx_control.lpx_state.locking_state
                != LockingState::Locked ==> {
                &&& final(self).dispatcher == old(self).dispatcher
                &&& final(self).lpx_control.sleeping == wake_tick(
                    old(self).lpx_control.counter,
                    SLEEP_DURATION,
                )
                &&& final(self).lpx_control.counter == old(self).lpx_control.counter
                &&& !final(self).lpx_control.lpx_state.active
                &&& final(self).lpx_control.lpx_state.last_pad
                    == old(self).lpx_control.lpx_state.last_pad
                &&& final(self).lpx_control.lpx_state.locking_state
                    == old(self).lpx_control.lpx_state.locking_state
                &&& actions(r@) == enable_actions(
                    old(self).lpx_control.lpx_state.active,
                    false,
                    old(self).lpx_control.lpx_state.last_pad,
                )
            },
            !(is_control_change(message@) && old(self).lpx_control.sleeping == 0)
                && !(is_note_strike(message@) && old(self).lpx_control.lpx_state.locking_state
                != LockingState::Locked) ==> {
                &&& *final(self) == *old(self)
                &&& r@.len() == 0
            },
    {
        if message.len() == 3 {
            if message[0] == CONTROL_CHANGE {
                if !self.lpx_control.sleeping() {
                    let array: [u8; 3] = [message[0], message[1], message[2]];
                    assert(array@ =~= message@);
                    return process_message(
                        &array,
                        &mut self.dispatcher,
                        &mut self.lpx_control.lpx_state,
                    );
                }
            } else if message[0] == NOTE_ON && message[2] > 0 {
                if self.lpx_control.lpx_state.locking_state != LockingState::Locked {
                    return self.lpx_control.sleep(SLEEP_DURATION);
                }
            }
        }
        Vec::new()
    }
}

/// A control change below the control range, whatever its value, leaves the
/// lock state and the last pad as they were and reaches no dispatcher.
pub proof fn lemma_noise_ignored(state: LockingState, last: Option<u8>, pad: u8, value: u8)
    requires
        pad < LOWEST_CONTROL,
    ensures
        lock_after(state, last, seq![CONTROL_CHANGE, pad, value]) == state,
        last_after(last, seq![CONTROL_CHANGE, pad, value]) == last,
        !dispatches(state, seq![CONTROL_CHANGE, pad, value]),
{
}

/// While locked, no message reaches the dispatcher, and the only way out of
/// the lock is the first pad of the unlock gesture.
pub proof fn lemma_locked_dispatches_nothing(last: Option<u8>, m: Seq<u8>)
    ensures
        !dispatches(LockingState::Locked, m),
        lock_after(LockingState::Locked, last, m) == LockingState::Locked || (
        is_qualifying_control(m) && m[1] == GESTURE_HIGH && lock_after(
            LockingState::Locked,
            last,
            m,
        ) == LockingState::Unlocking),
{
}

/// After a note struck at tick `counter`, controls stay suppressed for each
/// of the next `seconds * TICKS_PER_SECOND - 1` ticks and are awake again
/// after exactly `seconds * TICKS_PER_SECOND` ticks.
pub proof fn lemma_cooldown(counter: u64, seconds: u64, k: nat)
    requires
        seconds > 0,
        counter + seconds * TICKS_PER_SECOND <= u64::MAX,
    ensures
        k < seconds * TICKS_PER_SECOND ==> ticks((counter, wake_tick(counter, seconds)), k).1 != 0,
        ticks((counter, wake_tick(counter, seconds)), (seconds * TICKS_PER_SECOND) as nat).1 == 0,
{
    let n: nat = (seconds * TICKS_PER_SECOND) as nat;
    let w = wake_tick(counter, seconds);
    assert(w == counter + n);
    if k < n {
        lemma_ticks_before_wake(counter, w, k);
    }
    lemma_ticks_before_wake(counter, w, (n - 1) as nat);
    assert(ticks((counter, w), n) == tick_clock(ticks((counter, w), (n - 1) as nat)));
}

/// A note struck while the column is enabled paints every control pad but
/// the last one pressed disabled; the tick that ends the cooldown, the
/// column being disabled, paints the same pads enabled again.
pub proof fn lemma_cooldown_repaints(skip: Option<u8>)
    ensures
        enable_actions(true, false, skip) == repaint(DISABLED_COLOUR, skip),
        enable_actions(false, true, skip) == repaint(ENABLED_COLOUR, skip),
{
}

/// Before the wake tick `w` is reached, each tick only advances the counter.
proof fn lemma_ticks_before_wake(counter: u64, w: u64, k: nat)
    requires
        counter + k < w,
    ensures
        ticks((counter, w), k) == ((counter + k) as u64, w),
    decreases k,
{
    if k > 0 {
        lemma_ticks_before_wake(counter, w, (k - 1) as nat);
    }
}

} // verus!
