use mytypeless::fn_tap::{idle, tap_step, TapAction, TapEvent};
use mytypeless::sound::{tones, Cue, Tone};

fn flags(fn_now: bool, other_now: bool, now_ms: u64) -> TapEvent {
    TapEvent::FlagsChanged { fn_now, other_now, now_ms }
}

#[test]
fn clean_tap_fires() {
    let (s, a) = tap_step(idle(), flags(true, false, 1000));
    assert_eq!(a, TapAction::Keep);
    let (s, a) = tap_step(s, flags(false, false, 1700));
    assert_eq!(a, TapAction::Trigger);
    assert_eq!(s, idle());
}

#[test]
fn slow_or_dirty_taps_do_not_fire() {
    let (s, _) = tap_step(idle(), flags(true, false, 0));
    let (_, a) = tap_step(s, flags(false, false, 701));
    assert_eq!(a, TapAction::Keep);

    let (s, _) = tap_step(idle(), flags(true, false, 0));
    let (s, _) = tap_step(s, TapEvent::KeyDown);
    let (_, a) = tap_step(s, flags(false, false, 10));
    assert_eq!(a, TapAction::Keep);

    let (s, _) = tap_step(idle(), flags(true, true, 0));
    let (_, a) = tap_step(s, flags(false, false, 10));
    assert_eq!(a, TapAction::Keep);

    let (s, _) = tap_step(idle(), flags(true, false, 0));
    let (s, _) = tap_step(s, flags(true, true, 5));
    let (_, a) = tap_step(s, flags(false, false, 10));
    assert_eq!(a, TapAction::Keep);
}

#[test]
fn keydown_without_fn_and_disabled_tap() {
    let (s, a) = tap_step(idle(), TapEvent::KeyDown);
    assert_eq!((s, a), (idle(), TapAction::Keep));
    let (s, a) = tap_step(idle(), TapEvent::TapDisabled);
    assert_eq!((s, a), (idle(), TapAction::Reenable));
}

#[test]
fn cue_tones() {
    assert_eq!(
        tones(Cue::Listening),
        vec![Tone { freq_hz: 660, ms: 90 }, Tone { freq_hz: 988, ms: 110 }]
    );
    assert_eq!(tones(Cue::Transcribing), vec![Tone { freq_hz: 523, ms: 120 }]);
    assert_eq!(tones(Cue::Polishing), vec![Tone { freq_hz: 784, ms: 120 }]);
    assert_eq!(
        tones(Cue::Output),
        vec![Tone { freq_hz: 988, ms: 90 }, Tone { freq_hz: 659, ms: 130 }]
    );
}

#[test]
fn a_sequence_fires_once_per_clean_tap() {
    let events = [
        flags(true, false, 0),
        TapEvent::TapDisabled,
        flags(false, false, 100),
        flags(true, false, 200),
        TapEvent::KeyDown,
        flags(false, false, 300),
        flags(true, false, 400),
        flags(true, false, 450),
        flags(false, true, 500),
        TapEvent::KeyDown,
        flags(false, false, 600),
    ];
    let mut s = idle();
    let mut fired = Vec::new();
    for (i, e) in events.iter().enumerate() {
        let (next, a) = tap_step(s, *e);
        s = next;
        if a == TapAction::Trigger {
            fired.push(i);
        }
    }
    assert_eq!(fired, vec![2, 8]);
}
