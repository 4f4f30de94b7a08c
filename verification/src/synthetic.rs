//! The synthetic signal generator: one step of the built-in stream, in four
//! flavours.
use vstd::prelude::*;
use crate::rng::draw;
use crate::state::{AppState, Snapshot, apply_metrics, event_logged, entry_text, metrics_applied, push_event};
use crate::text::same_text;
use crate::clock::stamp_shape;

verus! {

/// How long, in nanoseconds, the generator waits between two feed entries.
pub const EVENT_GAP_NANOS: u64 = 900_000_000;

/// The pulse of a step and the generator state after it: a 90 burst in the
/// first four of every sixteen ticks, else a draw from `[8, 35)`.
pub open spec fn synthetic_pulse(tick: usize, rng: u64) -> (u64, u64) {
    if tick % 16 < 4 {
        (rng, 90)
    } else {
        draw(rng, 8, 35)
    }
}

/// The noise of a step, by flavour, and the generator state after it.
pub open spec fn synthetic_noise(label: Seq<char>, tick: usize, rng: u64) -> (u64, u64) {
    if label == "CALM STREAM"@ {
        draw(rng, 0, 20)
    } else if label == "CHAOS STREAM"@ {
        draw(rng, 20, 100)
    } else if label == "PULSE STORM"@ {
        if tick % 10 == 0 {
            (rng, 100)
        } else {
            draw(rng, 5, 55)
        }
    } else {
        draw(rng, 5, 70)
    }
}

/// The feed message the generator writes for a roll in `[0, 100)`.
pub open spec fn roll_message(roll: u64) -> Seq<char> {
    if roll > 85 {
        "ANOMALY spike detected in render stream"@
    } else if roll > 70 {
        "signal packet normalized"@
    } else if roll > 55 {
        "frame buffer pulse synchronized"@
    } else {
        "visual telemetry updated"@
    }
}

/// More than `EVENT_GAP_NANOS` have passed from `last` to `now`.
pub open spec fn event_due(last: u64, now: u64) -> bool {
    now > last && now - last > EVENT_GAP_NANOS
}

/// The state after a synthetic step with wave value `wave` at time `now`: pulse
/// and noise are drawn, energy is the capped mean of wave, pulse and noise, and
/// the sample `(energy, noise, pulse)` is applied; when an entry is due, a roll
/// picks the message that is logged with `stamp`, and the time is remembered.
pub open spec fn synthetic_stepped(s: Snapshot, wave: u64, now: u64, stamp: Seq<char>) -> Snapshot {
    let p = synthetic_pulse(s.tick, s.rng);
    let n = synthetic_noise(s.mode_label, s.tick, p.0);
    let mean: int = (wave + p.1 + n.1) / 3;
    let energy: u64 = if mean < 100 {
        mean as u64
    } else {
        100
    };
    let sampled = metrics_applied(Snapshot { rng: n.0, ..s }, energy, n.1, p.1);
    if event_due(s.last_event, now) {
        let r = draw(n.0, 0, 100);
        let logged = event_logged(Snapshot { rng: r.0, ..sampled }, entry_text(stamp, roll_message(r.1)));
        Snapshot { last_event: now, ..logged }
    } else {
        sampled
    }
}

/// One step of the synthetic stream at time `now` (nanoseconds, on the clock of
/// `state.last_event`); `wave_at` gives the wave value of a tick.
pub fn synthetic_tick<W: Fn(usize) -> u64>(state: &mut AppState, now: u64, wave_at: &W)
    requires
        forall|t: usize| #[trigger] wave_at.requires((t,)),
    ensures
        exists|wave: u64, stamp: Seq<char>|
            {
                &&& wave_at.ensures((old(state).tick,), wave)
                &&& event_due(old(state).last_event, now) ==> stamp_shape(stamp)
                &&& final(state)@ == #[trigger] synthetic_stepped(old(state)@, wave, now, stamp)
            },
{
    let ghost s0 = state@;
    let tick = state.tick;
    let wave = wave_at(tick);
    let pulse = if tick % 16 < 4 {
        90
    } else {
        state.rng.range(8, 35)
    };
    let ghost r1 = state.rng@;
    let noise = if same_text(state.mode_label.as_str(), "CALM STREAM") {
        state.rng.range(0, 20)
    } else if same_text(state.mode_label.as_str(), "CHAOS STREAM") {
        state.rng.range(20, 100)
    } else if same_text(state.mode_label.as_str(), "PULSE STORM") {
        if tick % 10 == 0 {
            100
        } else {
            state.rng.range(5, 55)
        }
    } else {
        state.rng.range(5, 70)
    };
    assert(synthetic_pulse(tick, s0.rng) == (r1, pulse));
    assert(synthetic_noise(s0.mode_label, tick, r1) == (state.rng@, noise));
    // A wave above 300 puts the mean of the three above 100 on its own.
    let energy: u64 = if wave > 300 {
        100
    } else {
        let mean = (wave + pulse + noise) / 3;
        if mean < 100 {
            mean
        } else {
            100
        }
    };
    let noise_capped = if noise < 100 {
        noise
    } else {
        100
    };
    let pulse_capped = if pulse < 100 {
        pulse
    } else {
        100
    };
    let ghost before_sample = state@;
    assert(before_sample == Snapshot { rng: state.rng@, ..s0 });
    apply_metrics(state, energy, noise_capped, pulse_capped);
    assert(state@ == metrics_applied(before_sample, energy, noise, pulse));
    if now > state.last_event && now - state.last_event > EVENT_GAP_NANOS {
        let roll = state.rng.range(0, 100);
        let ghost before_log = state@;
        if roll > 85 {
            push_event(state, "ANOMALY spike detected in render stream");
        } else if roll > 70 {
            push_event(state, "signal packet normalized");
        } else if roll > 55 {
            push_event(state, "frame buffer pulse synchronized");
        } else {
            push_event(state, "visual telemetry updated");
        }
        let ghost stamp = choose|stamp: Seq<char>|
            stamp_shape(stamp) && state@ == event_logged(
                before_log,
                #[trigger] entry_text(stamp, roll_message(roll)),
            );
        state.last_event = now;
        assert(state@ == synthetic_stepped(s0, wave, now, stamp));
    } else {
        assert(state@ == synthetic_stepped(s0, wave, now, Seq::empty()));
    }
}

} // verus!
