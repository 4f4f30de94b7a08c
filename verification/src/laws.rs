//! Properties of the engine as a whole: what every update keeps, how the
//! metrics move, and how adapters, flavours and the matrix are shaped.
use vstd::prelude::*;
use crate::engine::{advanced, frame_outcome, lines_ingested, next_tick};
use crate::ingest::{line_step, ping_anomaly, ping_sync};
use crate::mode::{ModeSpec, is_synthetic_label, label_of, next_label};
use crate::state::{
    Snapshot, cap100, event_logged, events_pushed, graph_ok, graph_pushed, idled, initial_snapshot,
    label_cycled, metrics_applied, stability_of, well_formed, EVENT_CAP, GRAPH_LEN,
};
use crate::synthetic::synthetic_stepped;
use crate::text::begins_with;
use crate::matrix::{cell_glyph, columns, matrix_row, matrix_rows, matrix_text, rows};

verus! {

/// A session starts well formed.
pub proof fn law_initial_state_well_formed(label: Seq<char>, seed: u64)
    ensures
        well_formed(initial_snapshot(label, seed)),
{
}

/// Stability stays within `30..=100` while anomaly and sync are within
/// `0..=100`.
pub proof fn law_stability_bounds(anomaly: u16, sync: u16)
    requires
        anomaly <= 100,
        sync <= 100,
    ensures
        30 <= stability_of(anomaly, sync) <= 100,
{
}

/// More anomaly or less sync never raises stability.
pub proof fn law_stability_monotone(a1: u16, a2: u16, y1: u16, y2: u16)
    requires
        a1 <= a2,
        y2 <= y1,
    ensures
        stability_of(a2, y2) <= stability_of(a1, y1),
{
    vstd::arithmetic::div_mod::lemma_div_is_ordered(a1 * 7, a2 * 7, 10);
    vstd::arithmetic::div_mod::lemma_div_is_ordered(y2 * 3, y1 * 3, 10);
}

/// A sample lands at the end of its graph, capped at 100; a full graph slides
/// by one and keeps its length.
pub proof fn law_graph_slides(g: Seq<u64>, v: u64)
    ensures
        graph_pushed(g, v).last() == cap100(v),
        g.len() == GRAPH_LEN ==> graph_pushed(g, v) == g.drop_first().push(cap100(v)),
        g.len() < GRAPH_LEN ==> graph_pushed(g, v) == g.push(cap100(v)),
{
    if g.len() == GRAPH_LEN {
        assert(g.push(cap100(v)).drop_first() =~= g.drop_first().push(cap100(v)));
    }
}

/// A graph of capped samples at full length stays so after a sample.
proof fn lemma_graph_ok_pushed(g: Seq<u64>, v: u64)
    requires
        graph_ok(g),
    ensures
        graph_ok(graph_pushed(g, v)),
{
    law_graph_slides(g, v);
    let r = graph_pushed(g, v);
    assert forall|i: int| 0 <= i < r.len() implies r[i] <= 100 by {
        if i < r.len() - 1 {
            assert(r[i] == g[i + 1]);
        }
    }
}

/// A metrics sample keeps the state well formed, whatever its values.
pub proof fn law_sample_keeps_well_formed(s: Snapshot, energy: u64, anomaly: u64, sync: u64)
    requires
        well_formed(s),
    ensures
        well_formed(metrics_applied(s, energy, anomaly, sync)),
{
    lemma_graph_ok_pushed(s.signal, cap100(energy));
    lemma_graph_ok_pushed(s.pulse, cap100(sync));
    lemma_graph_ok_pushed(s.noise, cap100(anomaly));
}

/// The newest feed entry is last, and the feed never grows past `EVENT_CAP`.
pub proof fn law_feed_bounded(evs: Seq<Seq<char>>, entry: Seq<char>)
    requires
        evs.len() <= EVENT_CAP,
    ensures
        events_pushed(evs, entry).last() == entry,
        events_pushed(evs, entry).len() <= EVENT_CAP,
        evs.len() < EVENT_CAP ==> events_pushed(evs, entry) == evs.push(entry),
{
}

/// A feed entry keeps the state well formed.
pub proof fn law_entry_keeps_well_formed(s: Snapshot, entry: Seq<char>)
    requires
        well_formed(s),
    ensures
        well_formed(event_logged(s, entry)),
{
    law_feed_bounded(s.events, entry);
}

/// Ingesting a line keeps the state well formed.
pub proof fn law_line_keeps_well_formed(
    s: Snapshot,
    line: Seq<char>,
    ping: Option<u64>,
    stamp: Seq<char>,
)
    requires
        well_formed(s),
    ensures
        well_formed(line_step(s, line, ping, stamp)),
{
    let c = crate::text::trim(line);
    if c.len() > 0 {
        let m = crate::ingest::line_metrics(s.mode_label, c, crate::text::uppercase(c), ping);
        law_sample_keeps_well_formed(s, m.0, m.1, m.2);
        law_entry_keeps_well_formed(
            metrics_applied(s, m.0, m.1, m.2),
            crate::state::entry_text(stamp, crate::ingest::source_tag(s.mode_label) + c),
        );
    }
}

/// A synthetic step keeps the state well formed.
pub proof fn law_synthetic_keeps_well_formed(s: Snapshot, wave: u64, now: u64, stamp: Seq<char>)
    requires
        well_formed(s),
    ensures
        well_formed(synthetic_stepped(s, wave, now, stamp)),
{
    let p = crate::synthetic::synthetic_pulse(s.tick, s.rng);
    let n = crate::synthetic::synthetic_noise(s.mode_label, s.tick, p.0);
    let mean: int = (wave + p.1 + n.1) / 3;
    let energy: u64 = if mean < 100 {
        mean as u64
    } else {
        100
    };
    let s0 = Snapshot { rng: n.0, ..s };
    law_sample_keeps_well_formed(s0, energy, n.1, p.1);
    let sampled = metrics_applied(s0, energy, n.1, p.1);
    let r = crate::rng::draw(n.0, 0, 100);
    law_entry_keeps_well_formed(
        Snapshot { rng: r.0, ..sampled },
        crate::state::entry_text(stamp, crate::synthetic::roll_message(r.1)),
    );
}

/// An idle tick keeps the state well formed.
pub proof fn law_idle_keeps_well_formed(s: Snapshot)
    requires
        well_formed(s),
    ensures
        well_formed(idled(s)),
{
    law_sample_keeps_well_formed(
        s,
        (if s.energy > 0 { s.energy - 1 } else { 0 }) as u64,
        (if s.anomaly > 0 { s.anomaly - 1 } else { 0 }) as u64,
        (if s.sync_rate > 0 { s.sync_rate - 1 } else { 0 }) as u64,
    );
}

/// A flavour rotation, with its feed entry, keeps the state well formed.
pub proof fn law_rotation_keeps_well_formed(s: Snapshot, entry: Seq<char>)
    requires
        well_formed(s),
    ensures
        well_formed(event_logged(label_cycled(s), entry)),
{
    law_entry_keeps_well_formed(label_cycled(s), entry);
}

/// Ingesting lines keeps the state well formed.
proof fn lemma_lines_keep_well_formed(
    s: Snapshot,
    lines: Seq<Seq<char>>,
    pings: Seq<Option<u64>>,
    stamps: Seq<Seq<char>>,
)
    requires
        well_formed(s),
    ensures
        well_formed(lines_ingested(s, lines, pings, stamps)),
    decreases lines.len(),
{
    if lines.len() > 0 {
        let k = lines.len() - 1;
        lemma_lines_keep_well_formed(s, lines.take(k), pings, stamps);
        law_line_keeps_well_formed(
            lines_ingested(s, lines.take(k), pings, stamps),
            lines[k],
            pings[k],
            stamps[k],
        );
    }
}

/// A whole frame keeps the state well formed: every state the engine reaches
/// has full graphs of samples in `0..=100`, at most `EVENT_CAP` feed entries,
/// metrics in `0..=100`, and stability derived from anomaly and sync.
pub proof fn law_frame_keeps_well_formed(
    s: Snapshot,
    lines: Seq<Seq<char>>,
    pings: Seq<Option<u64>>,
    stamps: Seq<Seq<char>>,
    wave: u64,
    now: u64,
    stamp: Seq<char>,
)
    requires
        well_formed(s),
    ensures
        well_formed(frame_outcome(advanced(s), lines, pings, stamps, wave, now, stamp)),
{
    let a = advanced(s);
    if lines.len() > 0 {
        lemma_lines_keep_well_formed(a, lines, pings, stamps);
    } else if is_synthetic_label(a.mode_label) {
        law_synthetic_keeps_well_formed(a, wave, now, stamp);
    } else {
        law_idle_keeps_well_formed(a);
    }
}

/// A slower ping round trip never scores a lower anomaly or a higher sync, and
/// sync stays within `5..=100`.
pub proof fn law_ping_latency_monotone(ms1: u64, ms2: u64)
    requires
        ms1 <= ms2,
    ensures
        ping_anomaly(ms1) <= ping_anomaly(ms2),
        ping_sync(ms2) <= ping_sync(ms1),
        5 <= ping_sync(ms2) <= 100,
{
}

/// Each adapter's lines follow its own rules: the ping rules apply exactly to
/// the ping adapter, the build rules exactly to the build adapter, the file
/// rules exactly to the file and tail adapters, and the synthetic generator
/// exactly to the synthetic adapter.
pub proof fn law_adapter_selects_rules(m: ModeSpec)
    ensures
        begins_with(label_of(m), "PING"@) <==> m is Ping,
        label_of(m) == "CARGO BUILD"@ <==> m is Build,
        (begins_with(label_of(m), "FILE"@) || begins_with(label_of(m), "TAIL"@)) <==> (m is File
            || m is Tail),
        is_synthetic_label(label_of(m)) <==> m is Synthetic,
{
    reveal_strlit("PING");
    reveal_strlit("FILE");
    reveal_strlit("TAIL");
    reveal_strlit("PING: ");
    reveal_strlit("FILE: ");
    reveal_strlit("TAIL: ");
    reveal_strlit("CARGO BUILD");
    reveal_strlit("SYNTHETIC STREAM");
    reveal_strlit("STDIN STREAM");
    reveal_strlit("CALM STREAM");
    reveal_strlit("CHAOS STREAM");
    reveal_strlit("PULSE STORM");
    let l = label_of(m);
    match m {
        ModeSpec::File(p) => {
            assert(l.subrange(0, 4) =~= "FILE"@);
            assert(l.subrange(0, 4)[0] == 'F');
        },
        ModeSpec::Tail(p) => {
            assert(l.subrange(0, 4) =~= "TAIL"@);
            assert(l.subrange(0, 4)[0] == 'T');
        },
        ModeSpec::Ping(p) => {
            assert(l.subrange(0, 4) =~= "PING"@);
            assert(l.subrange(0, 4)[0] == 'P');
            assert(l[1] != "PULSE STORM"@[1]);
        },
        ModeSpec::Synthetic => {
            assert(l.subrange(0, 4)[0] == 'S');
        },
        ModeSpec::Stdin => {
            assert(l.subrange(0, 4)[0] == 'S');
            assert(l[1] != "SYNTHETIC STREAM"@[1]);
        },
        ModeSpec::Build => {
            assert(l.subrange(0, 4)[0] == 'C');
            assert(l[2] != "CALM STREAM"@[2]);
            assert(l[1] != "CHAOS STREAM"@[1]);
        },
    }
    assert(begins_with(l, "PING"@) <==> m is Ping);
    assert(label_of(m) == "CARGO BUILD"@ <==> m is Build);
    assert(begins_with(l, "FILE"@) <==> m is File);
    assert(begins_with(l, "TAIL"@) <==> m is Tail);
}

/// Rotation always lands on a synthetic flavour, moves away from the current
/// one, and comes back after four steps.
pub proof fn law_rotation_cycles(label: Seq<char>)
    ensures
        is_synthetic_label(next_label(label)),
        next_label(label) != label,
        is_synthetic_label(label) ==> next_label(next_label(next_label(next_label(label)))) == label,
{
    reveal_strlit("SYNTHETIC STREAM");
    reveal_strlit("CALM STREAM");
    reveal_strlit("CHAOS STREAM");
    reveal_strlit("PULSE STORM");
    assert("SYNTHETIC STREAM"@ != "CALM STREAM"@ && "CALM STREAM"@ != "CHAOS STREAM"@) by {
        assert("SYNTHETIC STREAM"@.len() != "CALM STREAM"@.len());
        assert("CALM STREAM"@[1] != "CHAOS STREAM"@[1]);
    }
    assert("CHAOS STREAM"@ != "PULSE STORM"@ && "PULSE STORM"@ != "SYNTHETIC STREAM"@) by {
        assert("CHAOS STREAM"@.len() != "PULSE STORM"@.len());
        assert("PULSE STORM"@.len() != "SYNTHETIC STREAM"@.len());
    }
    assert("SYNTHETIC STREAM"@ != "CHAOS STREAM"@ && "CALM STREAM"@ != "PULSE STORM"@) by {
        assert("SYNTHETIC STREAM"@.len() != "CHAOS STREAM"@.len());
        assert("CALM STREAM"@[0] != "PULSE STORM"@[0]);
    }
}

/// The state after `k` idle ticks.
pub open spec fn idled_times(s: Snapshot, k: nat) -> Snapshot
    decreases k,
{
    if k == 0 {
        s
    } else {
        idled(idled_times(s, (k - 1) as nat))
    }
}

/// Without input a non-synthetic adapter decays: while the metrics are at most
/// 100, after `k` idle ticks each is its old value less `k`, and no less than
/// zero; after 100 ticks all three are zero and stability is full. A well formed
/// state stays well formed.
pub proof fn law_idle_decay(s: Snapshot, k: nat)
    requires
        s.energy <= 100,
        s.anomaly <= 100,
        s.sync_rate <= 100,
    ensures
        idled_times(s, k).energy == (if s.energy >= k { s.energy - k } else { 0 }),
        idled_times(s, k).anomaly == (if s.anomaly >= k { s.anomaly - k } else { 0 }),
        idled_times(s, k).sync_rate == (if s.sync_rate >= k { s.sync_rate - k } else { 0 }),
        k >= 100 ==> idled_times(s, k).energy == 0 && idled_times(s, k).anomaly == 0
            && idled_times(s, k).sync_rate == 0 && idled_times(s, k).stability == 100,
        well_formed(s) ==> well_formed(idled_times(s, k)),
    decreases k,
{
    if k > 0 {
        law_idle_decay(s, (k - 1) as nat);
        if well_formed(s) {
            law_idle_keeps_well_formed(idled_times(s, (k - 1) as nat));
        }
    }
}

/// Ingesting lines keeps the tick, the adapter label, the generator and the
/// time of its last entry.
proof fn lemma_lines_keep_clock(
    s: Snapshot,
    lines: Seq<Seq<char>>,
    pings: Seq<Option<u64>>,
    stamps: Seq<Seq<char>>,
)
    ensures
        lines_ingested(s, lines, pings, stamps).tick == s.tick,
        lines_ingested(s, lines, pings, stamps).mode_label == s.mode_label,
        lines_ingested(s, lines, pings, stamps).rng == s.rng,
        lines_ingested(s, lines, pings, stamps).last_event == s.last_event,
    decreases lines.len(),
{
    if lines.len() > 0 {
        lemma_lines_keep_clock(s, lines.take(lines.len() - 1), pings, stamps);
    }
}

/// Every frame advances the tick by exactly one (wrapping) and keeps the
/// adapter label; while input arrives the synthetic generator is left alone.
pub proof fn law_frame_clock(
    s: Snapshot,
    lines: Seq<Seq<char>>,
    pings: Seq<Option<u64>>,
    stamps: Seq<Seq<char>>,
    wave: u64,
    now: u64,
    stamp: Seq<char>,
)
    ensures
        frame_outcome(advanced(s), lines, pings, stamps, wave, now, stamp).tick == next_tick(s.tick),
        frame_outcome(advanced(s), lines, pings, stamps, wave, now, stamp).mode_label == s.mode_label,
        lines.len() > 0 ==> frame_outcome(advanced(s), lines, pings, stamps, wave, now, stamp).rng
            == s.rng,
        lines.len() > 0 ==> frame_outcome(
            advanced(s),
            lines,
            pings,
            stamps,
            wave,
            now,
            stamp,
        ).last_event == s.last_event,
{
    lemma_lines_keep_clock(advanced(s), lines, pings, stamps);
}

/// The first `k` rows of a matrix `w` glyphs wide hold `k * (w + 1) - 1`
/// chars, with newlines exactly at the positions `w`, `2w + 1`, ...
proof fn lemma_rows_shape(tick: int, w: int, k: int, energy: u16, anomaly: u16, sync: u16)
    requires
        w >= 1,
        k >= 1,
    ensures
        matrix_rows(tick, w, k, energy, anomaly, sync).len() == k * (w + 1) - 1,
        forall|p: int|
            0 <= p < k * (w + 1) - 1 ==> (#[trigger] matrix_rows(tick, w, k, energy, anomaly, sync)[p]
                == '\n' <==> p % (w + 1) == w),
    decreases k,
{
    let t = matrix_rows(tick, w, k, energy, anomaly, sync);
    if k == 1 {
        assert forall|p: int| 0 <= p < w implies (t[p] == '\n' <==> p % (w + 1) == w) by {
            vstd::arithmetic::div_mod::lemma_fundamental_div_mod_converse(p, w + 1, 0, p);
        }
    } else {
        lemma_rows_shape(tick, w, k - 1, energy, anomaly, sync);
        let prev = matrix_rows(tick, w, k - 1, energy, anomaly, sync);
        let row = matrix_row(tick, w, k - 1, energy, anomaly, sync);
        let base = (k - 1) * (w + 1);
        assert(base == (k - 2) * (w + 1) + w + 1) by (nonlinear_arith)
            requires
                base == (k - 1) * (w + 1),
        ;
        assert(t.len() == k * (w + 1) - 1) by (nonlinear_arith)
            requires
                t.len() == prev.len() + 1 + w,
                prev.len() == (k - 1) * (w + 1) - 1,
        ;
        assert forall|p: int| 0 <= p < k * (w + 1) - 1 implies (t[p] == '\n' <==> p % (w + 1)
            == w) by {
            if p < base - 1 {
                assert(t[p] == prev[p]);
            } else if p == base - 1 {
                vstd::arithmetic::div_mod::lemma_fundamental_div_mod_converse(p, w + 1, k - 2, w);
            } else {
                let x = p - base;
                assert(0 <= x < w);
                assert(t[p] == row[x]);
                lemma_glyph_not_newline(tick, x, k - 1, energy, anomaly, sync);
                vstd::arithmetic::div_mod::lemma_fundamental_div_mod_converse(p, w + 1, k - 1, x);
            }
        }
    }
}

/// No matrix glyph is a newline.
proof fn lemma_glyph_not_newline(tick: int, x: int, y: int, energy: u16, anomaly: u16, sync: u16)
    ensures
        cell_glyph(tick, x, y, energy, anomaly, sync) != '\n',
{
}

/// The matrix is a grid of at least 8 columns and 4 rows: `max(height, 4)` rows
/// of `max(width, 8)` glyphs, separated by single newlines, with no other
/// newline in it.
pub proof fn law_matrix_shape(
    tick: usize,
    width: usize,
    height: usize,
    energy: u16,
    anomaly: u16,
    sync: u16,
)
    ensures
        matrix_text(tick, width, height, energy, anomaly, sync).len() == rows(height) * (columns(
            width,
        ) + 1) - 1,
        forall|p: int|
            0 <= p < matrix_text(tick, width, height, energy, anomaly, sync).len() ==> (
            #[trigger] matrix_text(tick, width, height, energy, anomaly, sync)[p] == '\n' <==> p % (
            columns(width) + 1) == columns(width)),
{
    lemma_rows_shape(tick as int, columns(width), rows(height), energy, anomaly, sync);
}

/// A blank line (only whitespace) changes nothing: no sample, no feed entry.
pub proof fn law_blank_line_ignored(s: Snapshot, line: Seq<char>, ping: Option<u64>, stamp: Seq<char>)
    requires
        crate::text::trim(line).len() == 0,
    ensures
        line_step(s, line, ping, stamp) == s,
{
}

/// A line that is not blank is logged last in the feed, trimmed, tagged with its
/// source and stamped, and its sample is what the metrics read afterwards.
pub proof fn law_line_logged(s: Snapshot, line: Seq<char>, ping: Option<u64>, stamp: Seq<char>)
    requires
        well_formed(s),
        crate::text::trim(line).len() > 0,
    ensures
        ({
            let c = crate::text::trim(line);
            let m = crate::ingest::line_metrics(s.mode_label, c, crate::text::uppercase(c), ping);
            let r = line_step(s, line, ping, stamp);
            &&& r.events.last() == crate::state::entry_text(
                stamp,
                crate::ingest::source_tag(s.mode_label) + c,
            )
            &&& r.energy == cap100(m.0)
            &&& r.anomaly == cap100(m.1)
            &&& r.sync_rate == cap100(m.2)
            &&& r.signal.last() == cap100(m.0)
            &&& r.noise.last() == cap100(m.1)
            &&& r.pulse.last() == cap100(m.2)
        }),
{
    let c = crate::text::trim(line);
    let m = crate::ingest::line_metrics(s.mode_label, c, crate::text::uppercase(c), ping);
    law_graph_slides(s.signal, cap100(m.0));
    law_graph_slides(s.pulse, cap100(m.2));
    law_graph_slides(s.noise, cap100(m.1));
    law_feed_bounded(
        s.events,
        crate::state::entry_text(stamp, crate::ingest::source_tag(s.mode_label) + c),
    );
}

/// A draw from a non-empty range lands in it; an empty range gives its start.
pub proof fn law_draw_in_range(state: u64, start: u64, end: u64)
    ensures
        start < end ==> start <= crate::rng::draw(state, start, end).1 < end,
        end <= start ==> crate::rng::draw(state, start, end) == (state, start),
{
}

/// The pulse of a synthetic step: a 90 burst in the first four of every
/// sixteen ticks, else a value in `8..35`.
proof fn lemma_pulse_range(tick: usize, rng: u64)
    ensures
        tick % 16 < 4 ==> crate::synthetic::synthetic_pulse(tick, rng).1 == 90,
        tick % 16 >= 4 ==> 8 <= crate::synthetic::synthetic_pulse(tick, rng).1 < 35,
{
    law_draw_in_range(rng, 8, 35);
}

/// The noise of a synthetic step, by flavour.
proof fn lemma_noise_range(label: Seq<char>, tick: usize, rng: u64)
    ensures
        ({
            let n = crate::synthetic::synthetic_noise(label, tick, rng).1;
            &&& label == "CALM STREAM"@ ==> n < 20
            &&& label == "CHAOS STREAM"@ ==> 20 <= n < 100
            &&& label == "PULSE STORM"@ && tick % 10 == 0 ==> n == 100
            &&& label == "PULSE STORM"@ && tick % 10 != 0 ==> 5 <= n < 55
            &&& label == "SYNTHETIC STREAM"@ ==> 5 <= n < 70
            &&& n <= 100
        }),
{
    reveal_strlit("SYNTHETIC STREAM");
    reveal_strlit("CALM STREAM");
    reveal_strlit("CHAOS STREAM");
    reveal_strlit("PULSE STORM");
    assert("SYNTHETIC STREAM"@.len() != "CALM STREAM"@.len());
    assert("SYNTHETIC STREAM"@.len() != "CHAOS STREAM"@.len());
    assert("SYNTHETIC STREAM"@.len() != "PULSE STORM"@.len());
    assert("CALM STREAM"@.len() != "CHAOS STREAM"@.len());
    assert("CHAOS STREAM"@.len() != "PULSE STORM"@.len());
    assert("CALM STREAM"@[0] != "PULSE STORM"@[0]);
    law_draw_in_range(rng, 0, 20);
    law_draw_in_range(rng, 20, 100);
    law_draw_in_range(rng, 5, 55);
    law_draw_in_range(rng, 5, 70);
}

/// After a synthetic step, sync reads the pulse and anomaly reads the noise.
proof fn lemma_step_reads(s: Snapshot, wave: u64, now: u64, stamp: Seq<char>)
    ensures
        ({
            let p = crate::synthetic::synthetic_pulse(s.tick, s.rng);
            let n = crate::synthetic::synthetic_noise(s.mode_label, s.tick, p.0);
            let r = synthetic_stepped(s, wave, now, stamp);
            &&& r.sync_rate == p.1
            &&& r.anomaly == n.1
        }),
{
    let p = crate::synthetic::synthetic_pulse(s.tick, s.rng);
    lemma_pulse_range(s.tick, s.rng);
    lemma_noise_range(s.mode_label, s.tick, p.0);
}

/// The synthetic flavours shape the stream: the pulse (read as sync) bursts to
/// 90 in the first four of every sixteen ticks and stays in `8..35` otherwise;
/// the noise (read as anomaly) stays in `0..20` when calm, in `20..100` in chaos,
/// bursts to 100 every tenth tick of a pulse storm and stays in `5..55` between,
/// and stays in `5..70` in the default flavour.
pub proof fn law_flavour_ranges(s: Snapshot, wave: u64, now: u64, stamp: Seq<char>)
    ensures
        ({
            let r = synthetic_stepped(s, wave, now, stamp);
            &&& s.tick % 16 < 4 ==> r.sync_rate == 90
            &&& s.tick % 16 >= 4 ==> 8 <= r.sync_rate < 35
            &&& s.mode_label == "CALM STREAM"@ ==> r.anomaly < 20
            &&& s.mode_label == "CHAOS STREAM"@ ==> 20 <= r.anomaly < 100
            &&& s.mode_label == "PULSE STORM"@ && s.tick % 10 == 0 ==> r.anomaly == 100
            &&& s.mode_label == "PULSE STORM"@ && s.tick % 10 != 0 ==> 5 <= r.anomaly < 55
            &&& s.mode_label == "SYNTHETIC STREAM"@ ==> 5 <= r.anomaly < 70
        }),
{
    let p = crate::synthetic::synthetic_pulse(s.tick, s.rng);
    lemma_pulse_range(s.tick, s.rng);
    lemma_noise_range(s.mode_label, s.tick, p.0);
    lemma_step_reads(s, wave, now, stamp);
}

/// The generator step is a bijection on `u64` (its multiplier is odd, so it has
/// an inverse modulo 2^64): distinct states have distinct successors. Its low
/// bit alternates from one step to the next.
pub proof fn law_generator_step(a: u64, b: u64)
    ensures
        a != b ==> crate::rng::lcg_next(a) != crate::rng::lcg_next(b),
        crate::rng::lcg_next(a) % 2 != a % 2,
{
    let m: int = 0x1_0000_0000_0000_0000;
    let mul: int = crate::rng::LCG_MUL as int;
    let inc: int = crate::rng::LCG_INC as int;
    let inv: int = 13877824140714322085;
    let k: int = 4787856489426250814;
    assert(mul * inv == 1 + k * m);
    let x = a * mul + inc;
    let y = b * mul + inc;
    if a != b && crate::rng::lcg_next(a) == crate::rng::lcg_next(b) {
        assert(x % m == y % m);
        vstd::arithmetic::div_mod::lemma_mod_equivalence(x, y, m);
        let d: int = a - b;
        assert(x - y == d * mul) by (nonlinear_arith)
            requires
                x == a * mul + inc,
                y == b * mul + inc,
                d == a - b,
        ;
        let q = (d * mul) / m;
        vstd::arithmetic::div_mod::lemma_fundamental_div_mod(d * mul, m);
        assert(d * mul == m * q);
        assert(d == m * (q * inv - d * k)) by (nonlinear_arith)
            requires
                d * mul == m * q,
                mul * inv == 1 + k * m,
        ;
        let t = q * inv - d * k;
        assert(-m < d < m);
        assert(t == 0) by (nonlinear_arith)
            requires
                d == m * t,
                -m < d < m,
                m > 0,
                d != 0,
        ;
    }
    vstd::arithmetic::div_mod::lemma_mod_mod(x, 2, m / 2);
    assert(x % 2 != a % 2) by (nonlinear_arith)
        requires
            x == a * mul + inc,
            mul == 2 * 3182068111923396502 + 1,
            inc == 2 * 721347520444481703 + 1,
            a >= 0,
    ;
}

/// A matrix cell depends on its coordinates (and the tick and metrics), not on
/// the panel size: the glyph at column `x` of row `y` is `cell_glyph(x, y)`, at
/// offset `y * (w + 1) + x`; sizes below the minimum behave as the minimum.
pub proof fn law_matrix_cells(
    tick: usize,
    width: usize,
    height: usize,
    energy: u16,
    anomaly: u16,
    sync: u16,
)
    ensures
        forall|x: int, y: int|
            0 <= x < columns(width) && 0 <= y < rows(height) ==> #[trigger] matrix_text(
                tick,
                width,
                height,
                energy,
                anomaly,
                sync,
            )[y * (columns(width) + 1) + x] == cell_glyph(tick as int, x, y, energy, anomaly, sync),
        matrix_text(tick, width, height, energy, anomaly, sync) == matrix_text(
            tick,
            columns(width) as usize,
            rows(height) as usize,
            energy,
            anomaly,
            sync,
        ),
{
    lemma_rows_cells(tick as int, columns(width), rows(height), energy, anomaly, sync);
}

/// In the first `k` rows, the glyph at column `x` of row `y` sits at
/// `y * (w + 1) + x`.
proof fn lemma_rows_cells(tick: int, w: int, k: int, energy: u16, anomaly: u16, sync: u16)
    requires
        w >= 1,
        k >= 1,
    ensures
        forall|x: int, y: int|
            0 <= x < w && 0 <= y < k ==> #[trigger] matrix_rows(tick, w, k, energy, anomaly, sync)[y
                * (w + 1) + x] == cell_glyph(tick, x, y, energy, anomaly, sync),
    decreases k,
{
    let t = matrix_rows(tick, w, k, energy, anomaly, sync);
    if k == 1 {
        assert forall|x: int, y: int| 0 <= x < w && 0 <= y < k implies t[y * (w + 1) + x]
            == cell_glyph(tick, x, y, energy, anomaly, sync) by {
            assert(y * (w + 1) + x == x) by (nonlinear_arith)
                requires
                    y == 0,
            ;
        }
    } else {
        lemma_rows_cells(tick, w, k - 1, energy, anomaly, sync);
        lemma_rows_shape(tick, w, k - 1, energy, anomaly, sync);
        let prev = matrix_rows(tick, w, k - 1, energy, anomaly, sync);
        let base = (k - 1) * (w + 1);
        assert(prev.len() == base - 1) by (nonlinear_arith)
            requires
                prev.len() == (k - 1) * (w + 1) - 1,
                base == (k - 1) * (w + 1),
        ;
        assert forall|x: int, y: int| 0 <= x < w && 0 <= y < k implies t[y * (w + 1) + x]
            == cell_glyph(tick, x, y, energy, anomaly, sync) by {
            if y < k - 1 {
                assert(y * (w + 1) + x < base - 1) by (nonlinear_arith)
                    requires
                        0 <= x < w,
                        0 <= y < k - 1,
                        base == (k - 1) * (w + 1),
                ;
                assert(t[y * (w + 1) + x] == prev[y * (w + 1) + x]);
            } else {
                assert(y * (w + 1) + x == base + x) by (nonlinear_arith)
                    requires
                        y == k - 1,
                        base == (k - 1) * (w + 1),
                ;
            }
        }
    }
}

/// The feed after a sequence of entries, pushed one after another.
pub open spec fn events_after(evs: Seq<Seq<char>>, entries: Seq<Seq<char>>) -> Seq<Seq<char>>
    decreases entries.len(),
{
    if entries.len() == 0 {
        evs
    } else {
        events_pushed(events_after(evs, entries.drop_last()), entries.last())
    }
}

/// Over any sequence of entries the feed keeps the newest ones, at most
/// `EVENT_CAP` of them, in the order they were pushed: it is the last
/// `min(len, EVENT_CAP)` items of the old feed followed by the new entries.
pub proof fn law_feed_window(evs: Seq<Seq<char>>, entries: Seq<Seq<char>>)
    requires
        evs.len() <= EVENT_CAP,
    ensures
        ({
            let all = evs + entries;
            let n: int = if all.len() < EVENT_CAP {
                all.len() as int
            } else {
                EVENT_CAP as int
            };
            events_after(evs, entries) == all.skip(all.len() - n)
        }),
    decreases entries.len(),
{
    let all = evs + entries;
    if entries.len() == 0 {
        assert(all =~= evs);
        assert(all.skip(0) =~= all);
    } else {
        let rest = entries.drop_last();
        law_feed_window(evs, rest);
        let all0 = evs + rest;
        let n0: int = if all0.len() < EVENT_CAP {
            all0.len() as int
        } else {
            EVENT_CAP as int
        };
        let prev = all0.skip(all0.len() - n0);
        assert(all0.push(entries.last()) =~= all);
        assert(prev.push(entries.last()) =~= all.skip(all0.len() - n0));
        if prev.len() + 1 > EVENT_CAP {
            assert(prev.push(entries.last()).drop_first() =~= all.skip(all.len() - EVENT_CAP));
        }
    }
}

} // verus!
