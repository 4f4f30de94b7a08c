//! One frame of the engine: advance the tick, ingest what arrived, and fall
//! back to the synthetic generator or to idle decay when nothing did.
use vstd::prelude::*;
use crate::ingest::{ingest_line, line_step, ping_fits};
use crate::mode::{is_synthetic_label, is_synthetic_mode, next_label};
use crate::state::{
    AppState, Snapshot, cycle_mode, entry_text, event_logged, idle_tick, idled, label_cycled,
    mode_change_message,
};
use crate::synthetic::{event_due, synthetic_stepped, synthetic_tick};
use crate::clock::stamp_shape;
use crate::text::trim;

verus! {

/// The tick after `t`, wrapping to zero past `usize::MAX`.
pub open spec fn next_tick(t: usize) -> usize {
    if t == usize::MAX {
        0
    } else {
        (t + 1) as usize
    }
}

/// The chars of each string.
pub open spec fn texts(lines: Seq<String>) -> Seq<Seq<char>> {
    lines.map_values(|l: String| l@)
}

/// `s` with its tick advanced.
pub open spec fn advanced(s: Snapshot) -> Snapshot {
    Snapshot { tick: next_tick(s.tick), ..s }
}

/// The state after the first `lines.len()` lines are ingested in order, the
/// line at `i` read with `pings[i]` and logged with `stamps[i]`.
pub open spec fn lines_ingested(
    s: Snapshot,
    lines: Seq<Seq<char>>,
    pings: Seq<Option<u64>>,
    stamps: Seq<Seq<char>>,
) -> Snapshot
    decreases lines.len(),
{
    if lines.len() == 0 {
        s
    } else {
        let k = lines.len() - 1;
        line_step(lines_ingested(s, lines.take(k), pings, stamps), lines[k], pings[k], stamps[k])
    }
}

/// The state after a frame, given the state `s` with its tick already advanced:
/// the lines are ingested when there are any; otherwise a synthetic flavour
/// takes a generator step (with `wave`, at `now`, logging with `stamp`) and any
/// other adapter decays.
pub open spec fn frame_outcome(
    s: Snapshot,
    lines: Seq<Seq<char>>,
    pings: Seq<Option<u64>>,
    stamps: Seq<Seq<char>>,
    wave: u64,
    now: u64,
    stamp: Seq<char>,
) -> Snapshot {
    if lines.len() > 0 {
        lines_ingested(s, lines, pings, stamps)
    } else if is_synthetic_label(s.mode_label) {
        synthetic_stepped(s, wave, now, stamp)
    } else {
        idled(s)
    }
}

/// Ingesting lines leaves the adapter label as it is.
proof fn lemma_lines_keep_label(
    s: Snapshot,
    lines: Seq<Seq<char>>,
    pings: Seq<Option<u64>>,
    stamps: Seq<Seq<char>>,
)
    ensures
        lines_ingested(s, lines, pings, stamps).mode_label == s.mode_label,
    decreases lines.len(),
{
    if lines.len() > 0 {
        lemma_lines_keep_label(s, lines.take(lines.len() - 1), pings, stamps);
    }
}

/// Ingesting a prefix one line longer is one more step.
proof fn lemma_lines_step(
    s: Snapshot,
    lines: Seq<Seq<char>>,
    i: int,
    pings: Seq<Option<u64>>,
    stamps: Seq<Seq<char>>,
)
    requires
        0 <= i < lines.len(),
    ensures
        lines_ingested(s, lines.take(i + 1), pings, stamps) == line_step(
            lines_ingested(s, lines.take(i), pings, stamps),
            lines[i],
            pings[i],
            stamps[i],
        ),
{
    assert(lines.take(i + 1).take(i) =~= lines.take(i));
}

/// Runs one frame at time `now` (nanoseconds, on the clock of
/// `state.last_event`): the tick advances, then the `lines` that arrived since
/// the last frame are ingested in order; with none, a synthetic flavour takes a
/// generator step and any other adapter decays. `parse` turns the numeric text
/// of a ping line into milliseconds; `wave_at` gives the wave value of a tick.
pub fn update_state<P: Fn(&str) -> Option<u64>, W: Fn(usize) -> u64>(
    state: &mut AppState,
    lines: &Vec<String>,
    now: u64,
    parse: &P,
    wave_at: &W,
)
    requires
        forall|t: &str| #[trigger] parse.requires((t,)),
        forall|t: usize| #[trigger] wave_at.requires((t,)),
    ensures
        exists|
            pings: Seq<Option<u64>>,
            stamps: Seq<Seq<char>>,
            wave: u64,
            stamp: Seq<char>,
        |
            {
                &&& pings.len() == lines.len()
                &&& stamps.len() == lines.len()
                &&& forall|i: int|
                    0 <= i < lines.len() ==> ping_fits(
                        *parse,
                        advanced(old(state)@),
                        lines@[i]@,
                        #[trigger] pings[i],
                    )
                &&& forall|i: int|
                    0 <= i < lines.len() && trim(lines@[i]@).len() > 0 ==> stamp_shape(
                        #[trigger] stamps[i],
                    )
                &&& (lines.len() == 0 && is_synthetic_label(old(state)@.mode_label) && event_due(
                    old(state)@.last_event,
                    now,
                )) ==> stamp_shape(stamp)
                &&& (lines.len() == 0 && is_synthetic_label(old(state)@.mode_label))
                    ==> wave_at.ensures((next_tick(old(state)@.tick),), wave)
                &&& final(state)@ == #[trigger] frame_outcome(
                    advanced(old(state)@),
                    texts(lines@),
                    pings,
                    stamps,
                    wave,
                    now,
                    stamp,
                )
            },
{
    state.tick = state.tick.wrapping_add(1);
    let ghost s1 = state@;
    assert(s1 == advanced(old(state)@));
    let ghost ls = texts(lines@);
    let ghost mut pings: Seq<Option<u64>> = Seq::empty();
    let ghost mut stamps: Seq<Seq<char>> = Seq::empty();
    let n = lines.len();
    let mut i: usize = 0;
    assert(ls.take(0) =~= Seq::<Seq<char>>::empty());
    while i < n
        invariant
            n == lines@.len(),
            ls == texts(lines@),
            i <= n,
            pings.len() == i,
            stamps.len() == i,
            forall|j: int| 0 <= j < i ==> ping_fits(*parse, s1, ls[j], #[trigger] pings[j]),
            forall|j: int| 0 <= j < i && trim(ls[j]).len() > 0 ==> stamp_shape(#[trigger] stamps[j]),
            state@ == lines_ingested(s1, ls.take(i as int), pings, stamps),
            forall|t: &str| #[trigger] parse.requires((t,)),
        decreases n - i,
    {
        let ghost before = state@;
        proof {
            lemma_lines_keep_label(s1, ls.take(i as int), pings, stamps);
        }
        ingest_line(state, lines[i].as_str(), parse);
        let ghost (p, st) = choose|p: Option<u64>, st: Seq<char>|
            {
                &&& ping_fits(*parse, before, lines@[i as int]@, p)
                &&& trim(lines@[i as int]@).len() > 0 ==> stamp_shape(st)
                &&& state@ == #[trigger] line_step(before, lines@[i as int]@, p, st)
            };
        proof {
            let np = pings.push(p);
            let ns = stamps.push(st);
            assert(lines_ingested(s1, ls.take(i as int), np, ns) == lines_ingested(
                s1,
                ls.take(i as int),
                pings,
                stamps,
            )) by {
                lemma_prefix_unaffected(s1, ls.take(i as int), pings, stamps, np, ns);
            }
            lemma_lines_step(s1, ls, i as int, np, ns);
            pings = np;
            stamps = ns;
        }
        i = i + 1;
    }
    assert(ls.take(n as int) =~= ls);
    if n == 0 {
        if is_synthetic_mode(state.mode_label.as_str()) {
            synthetic_tick(state, now, wave_at);
            let ghost (w, st) = choose|w: u64, st: Seq<char>|
                {
                    &&& wave_at.ensures((s1.tick,), w)
                    &&& event_due(s1.last_event, now) ==> stamp_shape(st)
                    &&& state@ == #[trigger] synthetic_stepped(s1, w, now, st)
                };
            assert(state@ == frame_outcome(s1, ls, pings, stamps, w, now, st));
        } else {
            idle_tick(state);
            assert(state@ == frame_outcome(s1, ls, pings, stamps, 0, now, Seq::empty()));
        }
    } else {
        assert(state@ == frame_outcome(s1, ls, pings, stamps, 0, now, Seq::empty()));
    }
}

/// Handles a key press: `q` asks to quit and changes nothing, `m` rotates the
/// synthetic flavour (recording it in the feed), any other key does nothing.
pub fn handle_key(state: &mut AppState, key: char) -> (quit: bool)
    ensures
        quit == (key == 'q'),
        key != 'm' ==> final(state)@ == old(state)@,
        key == 'm' ==> exists|stamp: Seq<char>|
            stamp_shape(stamp) && final(state)@ == event_logged(
                label_cycled(old(state)@),
                #[trigger] entry_text(stamp, mode_change_message(next_label(old(state)@.mode_label))),
            ),
{
    if key == 'q' {
        true
    } else if key == 'm' {
        cycle_mode(state);
        false
    } else {
        false
    }
}

/// Extending the readings past the lines ingested changes nothing.
proof fn lemma_prefix_unaffected(
    s: Snapshot,
    lines: Seq<Seq<char>>,
    pings: Seq<Option<u64>>,
    stamps: Seq<Seq<char>>,
    pings2: Seq<Option<u64>>,
    stamps2: Seq<Seq<char>>,
)
    requires
        lines.len() <= pings.len(),
        lines.len() <= stamps.len(),
        pings2.len() >= pings.len(),
        stamps2.len() >= stamps.len(),
        forall|j: int| 0 <= j < pings.len() ==> pings2[j] == pings[j],
        forall|j: int| 0 <= j < stamps.len() ==> stamps2[j] == stamps[j],
    ensures
        lines_ingested(s, lines, pings2, stamps2) == lines_ingested(s, lines, pings, stamps),
    decreases lines.len(),
{
    if lines.len() > 0 {
        lemma_prefix_unaffected(s, lines.take(lines.len() - 1), pings, stamps, pings2, stamps2);
    }
}

} // verus!
