//! Audio cues for pipeline state transitions: each phase has a short,
//! distinct tone sequence, so the user can tell by ear what the app is doing.
//! Rising sequences mean "starting", falling ones "finishing", single blips
//! intermediate work. Playback itself is the application shell's.
use vstd::prelude::*;

verus! {

/// A pipeline phase that has an associated audio cue.
#[derive(Clone, Copy, Debug, PartialEq, Eq)]
pub enum Cue {
    /// Recording started: the microphone is listening.
    Listening,
    /// Audio captured; transcription in progress.
    Transcribing,
    /// The transcript is being polished.
    Polishing,
    /// The final text is being typed or pasted into the target app.
    Output,
}

/// One note of a cue: a sine tone of `freq_hz` hertz for `ms` milliseconds.
#[derive(Clone, Copy, Debug, PartialEq, Eq)]
pub struct Tone {
    pub freq_hz: u32,
    pub ms: u64,
}

/// The note sequence of each cue.
pub open spec fn tones_spec(cue: Cue) -> Seq<Tone> {
    match cue {
        Cue::Listening => seq![Tone { freq_hz: 660, ms: 90 }, Tone { freq_hz: 988, ms: 110 }],
        Cue::Transcribing => seq![Tone { freq_hz: 523, ms: 120 }],
        Cue::Polishing => seq![Tone { freq_hz: 784, ms: 120 }],
        Cue::Output => seq![Tone { freq_hz: 988, ms: 90 }, Tone { freq_hz: 659, ms: 130 }],
    }
}

/// The note sequence of a cue.
pub fn tones(cue: Cue) -> (r: Vec<Tone>)
    ensures
        r@ == tones_spec(cue),
{
    let mut v: Vec<Tone> = Vec::new();
    match cue {
        Cue::Listening => {
            v.push(Tone { freq_hz: 660, ms: 90 });
            v.push(Tone { freq_hz: 988, ms: 110 });
        },
        Cue::Transcribing => {
            v.push(Tone { freq_hz: 523, ms: 120 });
        },
        Cue::Polishing => {
            v.push(Tone { freq_hz: 784, ms: 120 });
        },
        Cue::Output => {
            v.push(Tone { freq_hz: 988, ms: 90 });
            v.push(Tone { freq_hz: 659, ms: 130 });
        },
    }
    assert(v@ == tones_spec(cue));
    v
}

// ─── Laws ───

/// The start cue rises, the finish cue falls, the two intermediate cues are
/// single blips of different pitch, and every note is short (under a
/// quarter of a second).
pub proof fn law_cue_shapes()
    ensures
        tones_spec(Cue::Listening).len() == 2 && tones_spec(Cue::Listening)[0].freq_hz < tones_spec(
            Cue::Listening,
        )[1].freq_hz,
        tones_spec(Cue::Output).len() == 2 && tones_spec(Cue::Output)[0].freq_hz > tones_spec(
            Cue::Output,
        )[1].freq_hz,
        tones_spec(Cue::Transcribing).len() == 1 && tones_spec(Cue::Polishing).len() == 1,
        tones_spec(Cue::Transcribing)[0].freq_hz != tones_spec(Cue::Polishing)[0].freq_hz,
        forall|c: Cue, i: int|
            0 <= i < tones_spec(c).len() ==> #[trigger] tones_spec(c)[i].ms < 250,
{
    assert forall|c: Cue, i: int| 0 <= i < tones_spec(c).len() implies #[trigger] tones_spec(
        c,
    )[i].ms < 250 by {
        match c {
            Cue::Listening => {},
            Cue::Transcribing => {},
            Cue::Polishing => {},
            Cue::Output => {},
        }
    }
}

} // verus!
