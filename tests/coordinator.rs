use lpx_control::control::{
    enable_lpx, process_message, LPXState, LpxControl, MidiCommTools, SLEEP_DURATION,
    TICKS_PER_SECOND,
};
use lpx_control::dispatcher::Dispatcher;
use lpx_control::lock::LockingState;
use lpx_control::pads::{
    paint_column, Effect, PadPaint, DISABLED_COLOUR, ENABLED_COLOUR, SELECTED_COLOUR,
};

/// A plain description of an effect, easy to compare.
#[derive(Debug, PartialEq)]
enum Seen {
    Flash(u8, u8),
    Steady(u8, u8),
    Run(String),
}

fn seen(effects: &[Effect]) -> Vec<Seen> {
    effects
        .iter()
        .map(|e| match e {
            Effect::Paint(p) if p.flash => Seen::Flash(p.pad, p.colour),
            Effect::Paint(p) => Seen::Steady(p.pad, p.colour),
            Effect::Run(s) => Seen::Run(s.clone()),
        })
        .collect()
}

fn column(colour: u8, skip: Option<u8>) -> Vec<Seen> {
    [19u8, 29, 39, 49, 59, 69, 79, 89]
        .iter()
        .filter(|p| Some(**p) != skip)
        .map(|p| Seen::Steady(*p, colour))
        .collect()
}

fn press(tools: &mut MidiCommTools, pad: u8) -> Vec<Seen> {
    seen(&tools.handle_message(&[176, pad, 127]))
}

#[test]
fn it_works() {
    let result = 2 + 2;
    assert_eq!(result, 4);
}

#[test]
fn lpx_state_starts_unlocked() {
    let s = LPXState::new();
    assert_eq!(s.last_pad, None);
    assert!(!s.active);
    assert_eq!(s.locking_state, LockingState::Unlocked);
}

#[test]
fn dispatcher_table_names() {
    let d = Dispatcher::new();
    assert_eq!(d.last, None);
    assert_eq!(d.up_table.len(), 8);
    assert_eq!(d.down_table.len(), 8);
    assert_eq!(d.up_table.get(&39).unwrap(), "ON-CTL.39");
    assert_eq!(d.down_table.get(&89).unwrap(), "OFF-CTL.89");
    assert!(d.up_table.get(&40).is_none());
}

#[test]
fn colour_frame_bytes() {
    let steady = PadPaint { flash: false, pad: 39, colour: ENABLED_COLOUR };
    assert_eq!(steady.frame(), vec![240, 0, 32, 41, 2, 12, 3, 0, 39, 87, 247]);
    let flash = PadPaint { flash: true, pad: 59, colour: SELECTED_COLOUR };
    assert_eq!(flash.frame(), vec![240, 0, 32, 41, 2, 12, 3, 2, 59, 67, 247]);
}

#[test]
fn paint_column_spares_one_pad() {
    assert_eq!(seen(&paint_column(DISABLED_COLOUR, Some(59))), column(DISABLED_COLOUR, Some(59)));
    assert_eq!(seen(&paint_column(ENABLED_COLOUR, None)).len(), 8);
    assert_eq!(seen(&paint_column(ENABLED_COLOUR, Some(40))).len(), 8);
}

#[test]
fn enable_lpx_paints_only_on_change() {
    let mut s = LPXState::new();
    let r = enable_lpx(true, &mut s);
    assert_eq!(seen(&r), column(ENABLED_COLOUR, None));
    assert!(s.active);
    assert!(enable_lpx(true, &mut s).is_empty());
    s.last_pad = Some(29);
    assert_eq!(seen(&enable_lpx(false, &mut s)), column(DISABLED_COLOUR, Some(29)));
    assert!(!s.active);
}

#[test]
fn noise_below_control_range_is_ignored() {
    let mut d = Dispatcher::new();
    let mut s = LPXState::new();
    for pad in 0u8..19 {
        for value in [0u8, 1, 64, 127] {
            let r = process_message(&[176, pad, value], &mut d, &mut s);
            assert!(r.is_empty());
            assert_eq!(s.locking_state, LockingState::Unlocked);
            assert_eq!(s.last_pad, None);
            assert_eq!(d.last, None);
        }
    }
}

#[test]
fn release_of_a_pad_is_ignored() {
    let mut d = Dispatcher::new();
    let mut s = LPXState::new();
    assert!(process_message(&[176, 39, 0], &mut d, &mut s).is_empty());
    assert_eq!(s.last_pad, None);
    assert_eq!(d.last, None);
}

#[test]
fn ascending_gesture_locks() {
    let mut d = Dispatcher::new();
    let mut s = LPXState::new();
    let expected = [
        LockingState::Locking,
        LockingState::Locking,
        LockingState::Locking,
        LockingState::Locked,
    ];
    for (pad, state) in [91u8, 92, 93, 94].iter().zip(expected.iter()) {
        let r = process_message(&[176, *pad, 127], &mut d, &mut s);
        assert!(r.is_empty());
        assert_eq!(s.locking_state, *state);
    }
    assert_eq!(d.last, None);
}

#[test]
fn skipped_step_aborts_locking() {
    let mut d = Dispatcher::new();
    let mut s = LPXState::new();
    process_message(&[176, 91, 127], &mut d, &mut s);
    assert_eq!(s.locking_state, LockingState::Locking);
    process_message(&[176, 93, 127], &mut d, &mut s);
    assert_eq!(s.locking_state, LockingState::Unlocked);
}

fn locked() -> (Dispatcher, LPXState) {
    let mut d = Dispatcher::new();
    let mut s = LPXState::new();
    for pad in [91u8, 92, 93, 94] {
        process_message(&[176, pad, 127], &mut d, &mut s);
    }
    assert_eq!(s.locking_state, LockingState::Locked);
    (d, s)
}

#[test]
fn descending_gesture_unlocks() {
    let (mut d, mut s) = locked();
    let expected = [
        LockingState::Unlocking,
        LockingState::Unlocking,
        LockingState::Unlocking,
        LockingState::Unlocked,
    ];
    for (pad, state) in [94u8, 93, 92, 91].iter().zip(expected.iter()) {
        assert!(process_message(&[176, *pad, 127], &mut d, &mut s).is_empty());
        assert_eq!(s.locking_state, *state);
    }
    let r = process_message(&[176, 39, 127], &mut d, &mut s);
    assert_eq!(seen(&r).len(), 3);
    assert_eq!(d.last, Some(39));
}

#[test]
fn skipped_step_aborts_unlocking() {
    let (mut d, mut s) = locked();
    process_message(&[176, 94, 127], &mut d, &mut s);
    assert_eq!(s.locking_state, LockingState::Unlocking);
    process_message(&[176, 92, 127], &mut d, &mut s);
    assert_eq!(s.locking_state, LockingState::Locked);
}

#[test]
fn locked_surface_dispatches_nothing() {
    let (mut d, mut s) = locked();
    for pad in [19u8, 39, 59, 89, 90, 91, 92, 93, 95, 127] {
        assert!(process_message(&[176, pad, 127], &mut d, &mut s).is_empty());
        assert_eq!(s.locking_state, LockingState::Locked);
        assert_eq!(d.last, None);
    }
}

#[test]
fn gesture_pads_never_dispatch_while_unlocked() {
    let mut d = Dispatcher::new();
    let mut s = LPXState::new();
    for pad in [92u8, 95, 127] {
        assert!(process_message(&[176, pad, 127], &mut d, &mut s).is_empty());
        assert_eq!(s.last_pad, Some(pad));
    }
    assert_eq!(d.last, None);
}

#[test]
fn repeat_press_runs_release_then_engage() {
    let mut d = Dispatcher::new();
    d.run_ctl(49);
    let r = d.run_ctl(49);
    assert_eq!(
        seen(&r),
        vec![
            Seen::Flash(49, SELECTED_COLOUR),
            Seen::Run("OFF-CTL.49".to_string()),
            Seen::Steady(49, ENABLED_COLOUR),
            Seen::Flash(49, SELECTED_COLOUR),
            Seen::Run("ON-CTL.49".to_string()),
            Seen::Steady(49, SELECTED_COLOUR),
        ]
    );
    assert_eq!(d.last, Some(49));
}

#[test]
fn pad_without_program_is_still_recorded() {
    let mut d = Dispatcher::new();
    assert!(d.run_ctl(40).is_empty());
    assert_eq!(d.last, Some(40));
    assert_eq!(seen(&d.run_ctl(19)), vec![
        Seen::Flash(19, SELECTED_COLOUR),
        Seen::Run("ON-CTL.19".to_string()),
        Seen::Steady(19, SELECTED_COLOUR),
    ]);
}

#[test]
fn clock_sleep_and_wake() {
    let mut c = LpxControl::new();
    c.start();
    assert!(!c.sleeping());
    c.counter = 5;
    let r = c.sleep(2);
    assert_eq!(seen(&r), column(DISABLED_COLOUR, None));
    assert_eq!(c.sleeping, 25);
    assert!(c.sleeping());
    for _ in 0..19 {
        assert!(c.tick().is_empty());
        assert!(c.sleeping());
    }
    assert_eq!(seen(&c.tick()), column(ENABLED_COLOUR, None));
    assert!(!c.sleeping());
    assert_eq!(c.counter, 0);
}

#[test]
fn idle_clock_only_counts() {
    let mut c = LpxControl::new();
    c.start();
    assert!(c.tick().is_empty());
    assert!(c.tick().is_empty());
    assert_eq!(c.counter, 2);
    assert_eq!(c.sleeping, 0);
}

#[test]
fn sleep_saturates() {
    let mut c = LpxControl::new();
    c.counter = u64::MAX - 3;
    c.sleep(2);
    assert_eq!(c.sleeping, u64::MAX);
    c.sleep(u64::MAX);
    assert_eq!(c.sleeping, u64::MAX);
}

#[test]
fn controls_suppressed_during_cooldown() {
    let (mut tools, _) = MidiCommTools::new();
    tools.handle_message(&[144, 60, 100]);
    let window = SLEEP_DURATION * TICKS_PER_SECOND;
    for _ in 0..window - 1 {
        assert!(press(&mut tools, 39).is_empty());
        assert!(press(&mut tools, 91).is_empty());
        assert_eq!(tools.lpx_control.lpx_state.locking_state, LockingState::Unlocked);
        assert_eq!(tools.lpx_control.lpx_state.last_pad, None);
        tools.lpx_control.tick();
    }
    assert!(press(&mut tools, 39).is_empty());
    tools.lpx_control.tick();
    assert_eq!(press(&mut tools, 39).len(), 3);
    assert_eq!(tools.dispatcher.last, Some(39));
}

#[test]
fn note_off_and_other_messages_change_nothing() {
    let (mut tools, _) = MidiCommTools::new();
    assert!(tools.handle_message(&[144, 60, 0]).is_empty());
    assert!(!tools.lpx_control.sleeping());
    assert!(tools.handle_message(&[128, 60, 10]).is_empty());
    assert!(tools.handle_message(&[176, 39]).is_empty());
    assert!(tools.handle_message(&[240, 0, 32, 41, 247]).is_empty());
    assert_eq!(tools.dispatcher.last, None);
}

#[test]
fn note_while_locked_does_not_suppress() {
    let (mut tools, _) = MidiCommTools::new();
    for pad in [91u8, 92, 93, 94] {
        press(&mut tools, pad);
    }
    assert_eq!(tools.lpx_control.lpx_state.locking_state, LockingState::Locked);
    assert!(tools.handle_message(&[144, 60, 100]).is_empty());
    assert!(!tools.lpx_control.sleeping());
}

#[test]
fn end_to_end_session() {
    let (mut tools, startup) = MidiCommTools::new();
    assert_eq!(seen(&startup), column(ENABLED_COLOUR, None));
    assert!(tools.lpx_control.lpx_state.active);
    assert_eq!(tools.lpx_control.lpx_state.last_pad, None);
    assert_eq!(tools.lpx_control.lpx_state.locking_state, LockingState::Unlocked);
    assert_eq!(tools.dispatcher.last, None);
    assert!(!tools.lpx_control.sleeping());

    assert_eq!(
        press(&mut tools, 39),
        vec![
            Seen::Flash(39, SELECTED_COLOUR),
            Seen::Run("ON-CTL.39".to_string()),
            Seen::Steady(39, SELECTED_COLOUR),
        ]
    );
    assert_eq!(tools.lpx_control.lpx_state.last_pad, Some(39));

    assert_eq!(
        press(&mut tools, 59),
        vec![
            Seen::Flash(39, SELECTED_COLOUR),
            Seen::Run("OFF-CTL.39".to_string()),
            Seen::Steady(39, ENABLED_COLOUR),
            Seen::Flash(59, SELECTED_COLOUR),
            Seen::Run("ON-CTL.59".to_string()),
            Seen::Steady(59, SELECTED_COLOUR),
        ]
    );

    let r = tools.handle_message(&[144, 64, 90]);
    assert_eq!(seen(&r), column(DISABLED_COLOUR, Some(59)));

    let mut woke: Vec<Seen> = Vec::new();
    for _ in 0..SLEEP_DURATION * TICKS_PER_SECOND {
        woke.extend(seen(&tools.lpx_control.tick()));
    }
    assert_eq!(woke, column(ENABLED_COLOUR, Some(59)));
}
