//! The engine state: bounded metric graphs, the four metrics, the event feed,
//! the adapter label and the generator; and the operations that every update
//! goes through.
use vstd::prelude::*;
use crate::clock::{local_time_full, stamp_shape};
use crate::mode::{is_synthetic_label, next_label, next_mode_label};
use crate::rng::SimpleRng;

verus! {

/// How many samples each graph keeps.
pub const GRAPH_LEN: usize = 90;

/// How many entries the event feed keeps.
pub const EVENT_CAP: usize = 300;

/// `v` capped at 100.
pub open spec fn cap100(v: u64) -> u64 {
    if v < 100 {
        v
    } else {
        100
    }
}

/// A graph after a sample: the capped value is appended and, past `GRAPH_LEN`
/// samples, the oldest one is dropped.
pub open spec fn graph_pushed(g: Seq<u64>, v: u64) -> Seq<u64> {
    let p = g.push(cap100(v));
    if p.len() > GRAPH_LEN {
        p.drop_first()
    } else {
        p
    }
}

/// Stability: `100 - floor(0.7 * anomaly) + floor(0.3 * sync)`, clamped to
/// `0..=100`.
pub open spec fn stability_of(anomaly: u16, sync: u16) -> u16 {
    let v: int = 100 - (anomaly * 7) / 10 + (sync * 3) / 10;
    if v < 0 {
        0
    } else if v > 100 {
        100
    } else {
        v as u16
    }
}

/// The event feed after an entry: appended, and past `EVENT_CAP` entries the
/// oldest one is dropped.
pub open spec fn events_pushed(evs: Seq<Seq<char>>, entry: Seq<char>) -> Seq<Seq<char>> {
    let p = evs.push(entry);
    if p.len() > EVENT_CAP {
        p.drop_first()
    } else {
        p
    }
}

/// A feed entry: `"[" + stamp + "] " + msg`.
pub open spec fn entry_text(stamp: Seq<char>, msg: Seq<char>) -> Seq<char> {
    "["@ + stamp + "] "@ + msg
}

/// The mathematical value of an `AppState`.
#[verifier::ext_equal]
pub struct Snapshot {
    pub tick: usize,
    pub signal: Seq<u64>,
    pub pulse: Seq<u64>,
    pub noise: Seq<u64>,
    pub events: Seq<Seq<char>>,
    pub energy: u16,
    pub stability: u16,
    pub anomaly: u16,
    pub sync_rate: u16,
    pub mode_label: Seq<char>,
    pub last_event: u64,
    pub rng: u64,
}

/// The state after a metrics sample `(energy, anomaly, sync)`: each value is
/// capped at 100, pushed on its graph (energy on `signal`, sync on `pulse`,
/// anomaly on `noise`) and stored; stability is recomputed from anomaly and
/// sync.
pub open spec fn metrics_applied(s: Snapshot, energy: u64, anomaly: u64, sync: u64) -> Snapshot {
    let e = cap100(energy);
    let a = cap100(anomaly);
    let y = cap100(sync);
    Snapshot {
        signal: graph_pushed(s.signal, e),
        pulse: graph_pushed(s.pulse, y),
        noise: graph_pushed(s.noise, a),
        energy: e as u16,
        anomaly: a as u16,
        sync_rate: y as u16,
        stability: stability_of(a as u16, y as u16),
        ..s
    }
}

/// The state after an entry is added to the event feed.
pub open spec fn event_logged(s: Snapshot, entry: Seq<char>) -> Snapshot {
    Snapshot { events: events_pushed(s.events, entry), ..s }
}

/// The state after an idle tick: each metric decays by one (not below zero).
pub open spec fn idled(s: Snapshot) -> Snapshot {
    metrics_applied(
        s,
        (if s.energy > 0 { s.energy - 1 } else { 0 }) as u64,
        (if s.anomaly > 0 { s.anomaly - 1 } else { 0 }) as u64,
        (if s.sync_rate > 0 { s.sync_rate - 1 } else { 0 }) as u64,
    )
}

/// The state after the generator flavour is rotated, before the feed records it.
pub open spec fn label_cycled(s: Snapshot) -> Snapshot {
    Snapshot { mode_label: next_label(s.mode_label), ..s }
}

/// The feed message that records a rotation to `label`.
pub open spec fn mode_change_message(label: Seq<char>) -> Seq<char> {
    "MODE changed to "@ + label
}

/// The state a session starts from: flat graphs of `GRAPH_LEN` zeros, an empty
/// feed, zero metrics with full stability, the generator seeded with `seed`.
pub open spec fn initial_snapshot(label: Seq<char>, seed: u64) -> Snapshot {
    Snapshot {
        tick: 0,
        signal: Seq::new(GRAPH_LEN as nat, |i: int| 0u64),
        pulse: Seq::new(GRAPH_LEN as nat, |i: int| 0u64),
        noise: Seq::new(GRAPH_LEN as nat, |i: int| 0u64),
        events: Seq::empty(),
        energy: 0,
        stability: 100,
        anomaly: 0,
        sync_rate: 0,
        mode_label: label,
        last_event: 0,
        rng: seed,
    }
}

/// All samples of a graph are at most 100 and it holds `GRAPH_LEN` of them.
pub open spec fn graph_ok(g: Seq<u64>) -> bool {
    &&& g.len() == GRAPH_LEN
    &&& forall|i: int| 0 <= i < g.len() ==> g[i] <= 100
}

/// What holds of every state the engine reaches: full graphs of capped samples,
/// a bounded feed, metrics in `0..=100` and stability derived from anomaly and
/// sync.
pub open spec fn well_formed(s: Snapshot) -> bool {
    &&& graph_ok(s.signal)
    &&& graph_ok(s.pulse)
    &&& graph_ok(s.noise)
    &&& s.events.len() <= EVENT_CAP
    &&& s.energy <= 100
    &&& s.anomaly <= 100
    &&& s.sync_rate <= 100
    &&& s.stability == stability_of(s.anomaly, s.sync_rate)
}

/// The engine state.
pub struct AppState {
    pub tick: usize,
    pub signal: Vec<u64>,
    pub pulse: Vec<u64>,
    pub noise: Vec<u64>,
    pub events: std::collections::VecDeque<String>,
    pub energy: u16,
    pub stability: u16,
    pub anomaly: u16,
    pub sync_rate: u16,
    pub mode_label: String,
    /// When the synthetic generator last wrote to the feed, in nanoseconds on
    /// the clock that `update_state` is given.
    pub last_event: u64,
    pub rng: SimpleRng,
}

impl View for AppState {
    type V = Snapshot;

    open spec fn view(&self) -> Snapshot {
        Snapshot {
            tick: self.tick,
            signal: self.signal@,
            pulse: self.pulse@,
            noise: self.noise@,
            events: self.events@.map_values(|e: String| e@),
            energy: self.energy,
            stability: self.stability,
            anomaly: self.anomaly,
            sync_rate: self.sync_rate,
            mode_label: self.mode_label@,
            last_event: self.last_event,
            rng: self.rng@,
        }
    }
}

/// A graph of `GRAPH_LEN` zeros.
fn flat_graph() -> (res: Vec<u64>)
    ensures
        res@ == Seq::new(GRAPH_LEN as nat, |i: int| 0u64),
{
    let mut v: Vec<u64> = Vec::new();
    let mut i: usize = 0;
    while i < GRAPH_LEN
        invariant
            i <= GRAPH_LEN,
            v@ == Seq::new(i as nat, |k: int| 0u64),
        decreases GRAPH_LEN - i,
    {
        v.push(0);
        i = i + 1;
        assert(v@ =~= Seq::new(i as nat, |k: int| 0u64));
    }
    v
}

impl AppState {
    /// The state a session starts from, for the adapter labelled `label` and a
    /// generator seeded with `seed`.
    pub fn new(label: String, seed: u64) -> (res: Self)
        ensures
            res@ == initial_snapshot(label@, seed),
    {
        let res = AppState {
            tick: 0,
            signal: flat_graph(),
            pulse: flat_graph(),
            noise: flat_graph(),
            events: std::collections::VecDeque::new(),
            energy: 0,
            stability: 100,
            anomaly: 0,
            sync_rate: 0,
            mode_label: label,
            last_event: 0,
            rng: SimpleRng::new(seed),
        };
        assert(res@.events =~= Seq::<Seq<char>>::empty());
        res
    }
}

/// Appends a sample, capped at 100, and drops the oldest one past `GRAPH_LEN`.
pub fn push_graph(graph: &mut Vec<u64>, value: u64)
    ensures
        final(graph)@ == graph_pushed(old(graph)@, value),
{
    let v = if value < 100 {
        value
    } else {
        100
    };
    graph.push(v);
    if graph.len() > GRAPH_LEN {
        graph.remove(0);
        assert(final(graph)@ =~= old(graph)@.push(v).drop_first());
    }
}

/// Records a metrics sample: caps each value at 100, pushes it on its graph,
/// stores it and recomputes stability.
pub fn apply_metrics(state: &mut AppState, energy: u64, anomaly: u64, sync: u64)
    ensures
        final(state)@ == metrics_applied(old(state)@, energy, anomaly, sync),
{
    let energy = if energy < 100 {
        energy
    } else {
        100
    };
    let anomaly = if anomaly < 100 {
        anomaly
    } else {
        100
    };
    let sync = if sync < 100 {
        sync
    } else {
        100
    };
    push_graph(&mut state.signal, energy);
    push_graph(&mut state.pulse, sync);
    push_graph(&mut state.noise, anomaly);
    state.energy = energy as u16;
    state.anomaly = anomaly as u16;
    state.sync_rate = sync as u16;
    let raised = 100 + (sync * 3) / 10;
    let lowered = raised - (anomaly * 7) / 10;
    state.stability = if lowered > 100 {
        100
    } else {
        lowered as u16
    };
}

/// Adds `"[" + stamp + "] " + msg` to the feed, dropping the oldest entry past
/// `EVENT_CAP`.
pub fn push_event_at(state: &mut AppState, stamp: &str, msg: &str)
    ensures
        final(state)@ == event_logged(old(state)@, entry_text(stamp@, msg@)),
{
    let mut entry = String::from_str("[");
    entry.append(stamp);
    entry.append("] ");
    entry.append(msg);
    let ghost e = entry@;
    state.events.push_back(entry);
    proof {
        assert(state.events@.map_values(|x: String| x@) =~= old(state).events@.map_values(
            |x: String| x@,
        ).push(e));
    }
    if state.events.len() > EVENT_CAP {
        let ghost before = state.events@;
        let _ = state.events.pop_front();
        proof {
            assert(state.events@.map_values(|x: String| x@) =~= before.map_values(
                |x: String| x@,
            ).drop_first());
        }
    }
    assert(final(state)@ =~= event_logged(old(state)@, entry_text(stamp@, msg@)));
}

/// Adds `msg` to the feed, stamped with the local time.
pub fn push_event(state: &mut AppState, msg: &str)
    ensures
        exists|stamp: Seq<char>|
            stamp_shape(stamp) && final(state)@ == event_logged(
                old(state)@,
                #[trigger] entry_text(stamp, msg@),
            ),
{
    let stamp = local_time_full();
    push_event_at(state, stamp.as_str(), msg);
}

/// An idle tick: each metric decays by one, not below zero.
pub fn idle_tick(state: &mut AppState)
    ensures
        final(state)@ == idled(old(state)@),
{
    let e = state.energy.saturating_sub(1) as u64;
    let a = state.anomaly.saturating_sub(1) as u64;
    let y = state.sync_rate.saturating_sub(1) as u64;
    apply_metrics(state, e, a, y);
}

/// Rotates the synthetic generator flavour and records the change in the feed.
pub fn cycle_mode(state: &mut AppState)
    ensures
        exists|stamp: Seq<char>|
            stamp_shape(stamp) && final(state)@ == event_logged(
                label_cycled(old(state)@),
                #[trigger] entry_text(stamp, mode_change_message(next_label(old(state)@.mode_label))),
            ),
{
    let label = next_mode_label(state.mode_label.as_str());
    let mut msg = String::from_str("MODE changed to ");
    msg.append(label.as_str());
    assert(msg@ == mode_change_message(next_label(old(state)@.mode_label)));
    state.mode_label = label;
    assert(state@ =~= label_cycled(old(state)@));
    push_event(state, msg.as_str());
}

} // verus!
