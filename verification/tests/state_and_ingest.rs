use vizr::ingest::{ingest_line, line_metrics_of, source_tag_of};
use vizr::state::{
    apply_metrics, cycle_mode, idle_tick, push_event, push_event_at, push_graph, AppState,
};

fn parse_ms(t: &str) -> Option<u64> {
    t.parse::<f64>().ok().map(|v| v.round() as u64)
}

fn fresh(label: &str) -> AppState {
    AppState::new(label.to_string(), 1)
}

fn metrics(s: &AppState) -> (u16, u16, u16, u16) {
    (s.energy, s.anomaly, s.sync_rate, s.stability)
}

#[test]
fn new_state_is_flat() {
    let s = fresh("SYNTHETIC STREAM");
    assert_eq!(s.tick, 0);
    assert_eq!(s.signal, vec![0; 90]);
    assert_eq!(s.pulse, vec![0; 90]);
    assert_eq!(s.noise, vec![0; 90]);
    assert!(s.events.is_empty());
    assert_eq!(metrics(&s), (0, 0, 0, 100));
    assert_eq!(s.mode_label, "SYNTHETIC STREAM");
    assert_eq!(s.rng.state, 1);
}

#[test]
fn push_graph_slides_and_caps() {
    let mut g: Vec<u64> = (0..90).collect();
    push_graph(&mut g, 250);
    assert_eq!(g.len(), 90);
    assert_eq!(g[0], 1);
    assert_eq!(g[89], 100);
    let mut short = vec![1, 2];
    push_graph(&mut short, 7);
    assert_eq!(short, vec![1, 2, 7]);
}

#[test]
fn stability_matches_float_formula_everywhere() {
    for a in 0..=100u64 {
        for y in 0..=100u64 {
            let mut s = fresh("STDIN STREAM");
            apply_metrics(&mut s, 10, a, y);
            let expected = 100i32 - ((a as u16 as f32 * 0.7) as i32) + ((y as u16 as f32 * 0.3) as i32);
            assert_eq!(s.stability as i32, expected.clamp(0, 100), "anomaly {} sync {}", a, y);
        }
    }
}

#[test]
fn apply_metrics_caps_and_records() {
    let mut s = fresh("STDIN STREAM");
    apply_metrics(&mut s, 500, 30, 1000);
    assert_eq!(metrics(&s), (100, 30, 100, 100));
    assert_eq!(*s.signal.last().unwrap(), 100);
    assert_eq!(*s.noise.last().unwrap(), 30);
    assert_eq!(*s.pulse.last().unwrap(), 100);
    assert_eq!(s.signal.len(), 90);
    apply_metrics(&mut s, 0, 100, 0);
    assert_eq!(s.stability, 30);
    apply_metrics(&mut s, 0, 50, 50);
    assert_eq!(s.stability, 80);
}

#[test]
fn push_event_formats_and_bounds_the_feed() {
    let mut s = fresh("STDIN STREAM");
    push_event_at(&mut s, "2024-01-02 03:04:05 PM", "hello");
    assert_eq!(s.events.back().unwrap(), "[2024-01-02 03:04:05 PM] hello");
    for i in 0..400 {
        push_event_at(&mut s, "t", &format!("m{}", i));
    }
    assert_eq!(s.events.len(), 300);
    assert_eq!(s.events.front().unwrap(), "[t] m100");
    assert_eq!(s.events.back().unwrap(), "[t] m399");
}

#[test]
fn push_event_stamps_with_local_time() {
    let mut s = fresh("STDIN STREAM");
    push_event(&mut s, "engine online");
    let e = s.events.back().unwrap();
    assert!(e.starts_with('['));
    assert!(e.ends_with("] engine online"));
    // "YYYY-MM-DD HH:MM:SS AM" between the brackets
    let stamp = &e[1..e.len() - "] engine online".len()];
    assert_eq!(stamp.len(), 22);
    assert!(stamp.ends_with("AM") || stamp.ends_with("PM"));
}

#[test]
fn idle_tick_decays_by_one() {
    let mut s = fresh("STDIN STREAM");
    apply_metrics(&mut s, 3, 1, 0);
    idle_tick(&mut s);
    assert_eq!((s.energy, s.anomaly, s.sync_rate), (2, 0, 0));
    idle_tick(&mut s);
    idle_tick(&mut s);
    idle_tick(&mut s);
    assert_eq!((s.energy, s.anomaly, s.sync_rate), (0, 0, 0));
    assert_eq!(s.stability, 100);
}

#[test]
fn cycle_mode_rotates_and_logs() {
    let mut s = fresh("SYNTHETIC STREAM");
    cycle_mode(&mut s);
    assert_eq!(s.mode_label, "CALM STREAM");
    assert!(s.events.back().unwrap().ends_with("] MODE changed to CALM STREAM"));
    let mut p = fresh("PING: host");
    cycle_mode(&mut p);
    assert_eq!(p.mode_label, "SYNTHETIC STREAM");
}

#[test]
fn blank_lines_change_nothing() {
    let mut s = fresh("STDIN STREAM");
    ingest_line(&mut s, "   \t ", &parse_ms);
    assert!(s.events.is_empty());
    assert_eq!(metrics(&s), (0, 0, 0, 100));
    assert_eq!(s.signal, vec![0; 90]);
}

#[test]
fn generic_rules() {
    let mut s = fresh("STDIN STREAM");
    ingest_line(&mut s, "  thread main panicked  ", &parse_ms);
    assert_eq!(metrics(&s).0, 90);
    assert_eq!(metrics(&s).1, 95);
    assert_eq!(metrics(&s).2, 20);
    assert!(s.events.back().unwrap().ends_with("] thread main panicked"));
    ingest_line(&mut s, "warning: unused", &parse_ms);
    assert_eq!((s.energy, s.anomaly, s.sync_rate), (65, 60, 55));
    ingest_line(&mut s, "all ok", &parse_ms);
    assert_eq!((s.energy, s.anomaly, s.sync_rate), (35, 5, 100));
    ingest_line(&mut s, "plain text", &parse_ms);
    assert_eq!((s.energy, s.anomaly, s.sync_rate), (10, 8, 70));
    // energy is the UTF-8 byte length: two bytes per 'é'
    ingest_line(&mut s, "éééé", &parse_ms);
    assert_eq!(s.energy, 8);
    ingest_line(&mut s, &"z".repeat(250), &parse_ms);
    assert_eq!(s.energy, 100);
}

#[test]
fn build_rules() {
    let mut s = fresh("CARGO BUILD");
    ingest_line(&mut s, "error[E0308]: mismatched types", &parse_ms);
    assert_eq!((s.energy, s.anomaly, s.sync_rate), (95, 100, 15));
    ingest_line(&mut s, "warning: unused variable", &parse_ms);
    assert_eq!((s.energy, s.anomaly, s.sync_rate), (70, 55, 50));
    ingest_line(&mut s, "   Compiling vizr v0.1.0", &parse_ms);
    assert_eq!((s.energy, s.anomaly, s.sync_rate), (75, 15, 80));
    ingest_line(&mut s, "    Finished release", &parse_ms);
    assert_eq!((s.energy, s.anomaly, s.sync_rate), (35, 2, 100));
    ingest_line(&mut s, "Blocking", &parse_ms);
    assert_eq!((s.energy, s.anomaly, s.sync_rate), (8, 8, 70));
}

#[test]
fn file_rules() {
    let mut s = fresh("FILE: app.log");
    ingest_line(&mut s, "fatal: failure", &parse_ms);
    assert_eq!((s.energy, s.anomaly, s.sync_rate), (14, 90, 85));
    let mut t = fresh("TAIL: app.log");
    ingest_line(&mut t, "Warn: disk", &parse_ms);
    assert_eq!((t.energy, t.anomaly, t.sync_rate), (10, 55, 85));
    ingest_line(&mut t, "fine", &parse_ms);
    assert_eq!((t.energy, t.anomaly, t.sync_rate), (4, 10, 85));
}

#[test]
fn ping_rules() {
    let mut s = fresh("PING: google.com");
    ingest_line(&mut s, "64 bytes from x: icmp_seq=1 ttl=117 time=14.2 ms", &parse_ms);
    assert_eq!((s.energy, s.anomaly, s.sync_rate), (14, 5, 93));
    ingest_line(&mut s, "64 bytes from x: time=80.4 ms", &parse_ms);
    assert_eq!((s.energy, s.anomaly, s.sync_rate), (80, 25, 60));
    ingest_line(&mut s, "64 bytes from x: time=350 ms", &parse_ms);
    assert_eq!((s.energy, s.anomaly, s.sync_rate), (100, 75, 5));
    ingest_line(&mut s, "Request timeout for icmp_seq 4", &parse_ms);
    assert_eq!((s.energy, s.anomaly, s.sync_rate), (95, 100, 0));
    ingest_line(&mut s, "PING google.com (1.2.3.4)", &parse_ms);
    assert_eq!((s.energy, s.anomaly, s.sync_rate), (25, 8, 70));
}

#[test]
fn uppercase_mapping_reaches_the_rules() {
    // Only the uppercased text contains "ERROR"; "ß" uppercases to "SS".
    let mut s = fresh("STDIN STREAM");
    ingest_line(&mut s, "an eRRor", &parse_ms);
    assert_eq!(s.anomaly, 95);
    let mut t = fresh("STDIN STREAM");
    ingest_line(&mut t, "ßuccess", &parse_ms);
    assert_eq!(t.anomaly, 5);
}

#[test]
fn feed_entries_name_their_source() {
    let cases = [
        ("STDIN STREAM", "[STDIN] hello"),
        ("CARGO BUILD", "[BUILD] hello"),
        ("PING: host", "[PING] hello"),
        ("FILE: a.log", "hello"),
        ("TAIL: a.log", "hello"),
        ("SYNTHETIC STREAM", "hello"),
    ];
    for (label, tail) in cases {
        let mut s = fresh(label);
        ingest_line(&mut s, "  hello ", &parse_ms);
        let e = s.events.back().unwrap();
        assert!(e.starts_with('['));
        assert!(e.ends_with(&format!("] {}", tail)), "{} -> {}", label, e);
    }
}

#[test]
fn source_tags_and_line_metrics_on_given_values() {
    assert_eq!(source_tag_of("PING: x"), "[PING] ");
    assert_eq!(source_tag_of("CARGO BUILD"), "[BUILD] ");
    assert_eq!(source_tag_of("STDIN STREAM"), "[STDIN] ");
    assert_eq!(source_tag_of("CALM STREAM"), "");
    assert_eq!(
        line_metrics_of("CARGO BUILD", "warning: x", "WARNING: X", None),
        (70, 55, 50)
    );
    assert_eq!(line_metrics_of("CARGO BUILD", "Finished", "FINISHED", None), (35, 2, 100));
    assert_eq!(line_metrics_of("PING: h", "time=30 ms", "TIME=30 MS", Some(30)), (30, 5, 85));
    assert_eq!(line_metrics_of("PING: h", "x", "X", None), (1, 8, 70));
    assert_eq!(line_metrics_of("STDIN STREAM", "ok", "OK", None), (35, 5, 100));
}

#[test]
fn feed_keeps_newest_window_over_many_pushes() {
    let mut s = fresh("STDIN STREAM");
    for i in 0..10 {
        push_event_at(&mut s, "t", &format!("a{}", i));
    }
    for i in 0..295 {
        push_event_at(&mut s, "t", &format!("b{}", i));
        assert_eq!(s.events.len(), (11 + i).min(300));
    }
    assert_eq!(s.events.front().unwrap(), "[t] a5");
    assert_eq!(s.events.back().unwrap(), "[t] b294");
}

#[test]
fn idle_decay_needs_only_bounded_metrics() {
    let mut s = fresh("STDIN STREAM");
    s.signal.clear();
    s.energy = 100;
    s.anomaly = 3;
    s.sync_rate = 50;
    for _ in 0..100 {
        idle_tick(&mut s);
    }
    assert_eq!((s.energy, s.anomaly, s.sync_rate, s.stability), (0, 0, 0, 100));
}
