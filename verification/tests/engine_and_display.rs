use vizr::display::{
    event_color, glitch_bar, matrix_color, recent_events, render_matrix, spinner_glyph, Hue,
};
use vizr::engine::{handle_key, update_state};
use vizr::matrix::generate_matrix;
use vizr::state::{push_event_at, AppState};
use vizr::synthetic::synthetic_tick;

fn parse_ms(t: &str) -> Option<u64> {
    t.parse::<f64>().ok().map(|v| v.round() as u64)
}

fn lcg(s: u64) -> u64 {
    s.wrapping_mul(6364136223846793005).wrapping_add(1442695040888963407)
}

fn flat_wave(_tick: usize) -> u64 {
    40
}

#[test]
fn synthetic_step_without_event() {
    let mut s = AppState::new("SYNTHETIC STREAM".to_string(), 0);
    synthetic_tick(&mut s, 0, &flat_wave);
    // tick 0: pulse burst of 90, noise drawn from [5, 70)
    let n = lcg(0);
    let noise = 5 + n % 65;
    let energy = ((40 + 90 + noise) / 3).min(100);
    assert_eq!(s.rng.state, n);
    assert_eq!(s.sync_rate, 90);
    assert_eq!(s.anomaly as u64, noise);
    assert_eq!(s.energy as u64, energy);
    assert!(s.events.is_empty());
    assert_eq!(s.last_event, 0);
}

#[test]
fn synthetic_step_with_event() {
    let mut s = AppState::new("CALM STREAM".to_string(), 5);
    s.tick = 4;
    synthetic_tick(&mut s, 900_000_001, &flat_wave);
    let r1 = lcg(5);
    let pulse = 8 + r1 % 27;
    let r2 = lcg(r1);
    let noise = r2 % 20;
    let r3 = lcg(r2);
    let roll = r3 % 100;
    assert_eq!(s.sync_rate as u64, pulse);
    assert_eq!(s.anomaly as u64, noise);
    assert_eq!(s.rng.state, r3);
    assert_eq!(s.last_event, 900_000_001);
    let msg = if roll > 85 {
        "ANOMALY spike detected in render stream"
    } else if roll > 70 {
        "signal packet normalized"
    } else if roll > 55 {
        "frame buffer pulse synchronized"
    } else {
        "visual telemetry updated"
    };
    assert!(s.events.back().unwrap().ends_with(msg));
    assert_eq!(s.events.len(), 1);
}

#[test]
fn synthetic_event_waits_for_the_gap() {
    let mut s = AppState::new("SYNTHETIC STREAM".to_string(), 5);
    s.last_event = 100;
    synthetic_tick(&mut s, 900_000_100, &flat_wave);
    assert!(s.events.is_empty());
    synthetic_tick(&mut s, 50, &flat_wave);
    assert!(s.events.is_empty());
}

#[test]
fn pulse_storm_bursts_noise_every_tenth_tick() {
    let mut s = AppState::new("PULSE STORM".to_string(), 3);
    s.tick = 80;
    synthetic_tick(&mut s, 0, &flat_wave);
    assert_eq!(s.anomaly, 100);
    assert_eq!(s.sync_rate, 90);
    assert_eq!(s.rng.state, 3);
}

#[test]
fn update_state_ingests_lines() {
    let mut s = AppState::new("STDIN STREAM".to_string(), 1);
    let lines = vec!["error one".to_string(), "   ".to_string(), "build ok".to_string()];
    update_state(&mut s, &lines, 0, &parse_ms, &flat_wave);
    assert_eq!(s.tick, 1);
    assert_eq!(s.events.len(), 2);
    assert_eq!((s.energy, s.anomaly, s.sync_rate), (35, 5, 100));
    assert_eq!(s.rng.state, 1);
}

#[test]
fn update_state_without_input_runs_generator_or_decays() {
    let mut s = AppState::new("SYNTHETIC STREAM".to_string(), 0);
    update_state(&mut s, &Vec::new(), 0, &parse_ms, &flat_wave);
    assert_eq!(s.tick, 1);
    assert_ne!(s.rng.state, 0);
    let mut d = AppState::new("STDIN STREAM".to_string(), 0);
    d.energy = 10;
    update_state(&mut d, &Vec::new(), 0, &parse_ms, &flat_wave);
    assert_eq!(d.energy, 9);
    assert_eq!(d.rng.state, 0);
}

#[test]
fn update_state_wraps_the_tick() {
    let mut s = AppState::new("STDIN STREAM".to_string(), 0);
    s.tick = usize::MAX;
    update_state(&mut s, &Vec::new(), 0, &parse_ms, &flat_wave);
    assert_eq!(s.tick, 0);
}

#[test]
fn keys() {
    let mut s = AppState::new("SYNTHETIC STREAM".to_string(), 0);
    assert!(handle_key(&mut s, 'q'));
    assert_eq!(s.mode_label, "SYNTHETIC STREAM");
    assert!(!handle_key(&mut s, 'x'));
    assert!(s.events.is_empty());
    assert!(!handle_key(&mut s, 'm'));
    assert_eq!(s.mode_label, "CALM STREAM");
    assert_eq!(s.events.len(), 1);
}

#[test]
fn matrix_minimum_grid() {
    let m = generate_matrix(0, 0, 0, 0, 0, 0);
    let rows: Vec<&str> = m.split('\n').collect();
    assert_eq!(rows.len(), 4);
    for r in &rows {
        assert_eq!(r.chars().count(), 8);
    }
    assert!(m.starts_with('█'));
}

#[test]
fn matrix_grid_follows_size() {
    let m = generate_matrix(12345, 30, 7, 60, 90, 40);
    let rows: Vec<&str> = m.split('\n').collect();
    assert_eq!(rows.len(), 7);
    for r in &rows {
        assert_eq!(r.chars().count(), 30);
    }
}

#[test]
fn matrix_fracture_glyph_under_anomaly() {
    // At the origin of tick 0 the fracture lattice hits; above 40 anomaly it is hot.
    let hot = generate_matrix(0, 8, 4, 0, 100, 0);
    assert!(hot.starts_with('#'));
    let calm = generate_matrix(0, 8, 4, 0, 40, 0);
    assert!(calm.starts_with('█'));
}

#[test]
fn matrix_cell_formula() {
    let (tick, energy, anomaly, sync) = (7usize, 30u16, 10u16, 50u16);
    let m = generate_matrix(tick, 10, 5, energy, anomaly, sync);
    let rows: Vec<Vec<char>> = m.split('\n').map(|r| r.chars().collect()).collect();
    let density = ((energy as usize / 6) + 2).min(20);
    let chaos = ((anomaly as usize / 8) + 1).min(15);
    let coherence = ((sync as usize / 10) + 3).min(14);
    let calm = ['0', '1', '.', '+', '░', '▒'];
    let hot = ['#', '@', '*', '▓', '█', 'x', '%', '&'];
    for y in 0..5 {
        for x in 0..10 {
            let wave = (x + tick / 2) % (24 - density).max(4) == 0;
            let scan = (y + tick / 3) % (18 - chaos).max(3) == 0;
            let growth = ((x * y + tick + coherence) % 17) < density;
            let fracture = (x + y * 2 + tick) % (22 - chaos).max(4) == 0;
            let expected = if fracture && anomaly > 40 {
                hot[(x * 7 + y * 13 + tick) % 8]
            } else if wave {
                '█'
            } else if scan {
                '▓'
            } else if growth {
                hot[(x * 3 + y * 5 + tick) % 8]
            } else {
                calm[(x * 5 + y * 11 + tick) % 6]
            };
            assert_eq!(rows[y][x], expected, "cell {} {}", x, y);
        }
    }
}

#[test]
fn render_matrix_uses_panel_inside() {
    let mut s = AppState::new("STDIN STREAM".to_string(), 0);
    s.tick = 3;
    s.energy = 50;
    let m = render_matrix(&s, 22, 9);
    assert_eq!(m, generate_matrix(3, 20, 7, 50, 0, 0));
    assert_eq!(render_matrix(&s, 1, 1), generate_matrix(3, 0, 0, 50, 0, 0));
}

#[test]
fn colors() {
    assert_eq!(matrix_color(0), Hue::Green);
    assert_eq!(matrix_color(20), Hue::Green);
    assert_eq!(matrix_color(21), Hue::Yellow);
    assert_eq!(matrix_color(50), Hue::Yellow);
    assert_eq!(matrix_color(51), Hue::Magenta);
    assert_eq!(matrix_color(80), Hue::Magenta);
    assert_eq!(matrix_color(81), Hue::Red);
    assert_eq!(event_color("[t] ERROR boom"), Hue::Red);
    assert_eq!(event_color("[t] MODE changed to CALM STREAM"), Hue::Yellow);
    assert_eq!(event_color("[t] FINISHED build adapter completed"), Hue::Green);
    assert_eq!(event_color("[t] visual telemetry updated"), Hue::Cyan);
    assert_eq!(event_color("[t] error lowercase"), Hue::Cyan);
}

#[test]
fn header_frames() {
    assert_eq!(spinner_glyph(0), '◢');
    assert_eq!(spinner_glyph(7), '◣');
    assert_eq!(spinner_glyph(5), '◇');
    assert_eq!(glitch_bar(0), "░▒▓".repeat(12));
    assert_eq!(glitch_bar(9), "█▓▒".repeat(12));
}

#[test]
fn recent_events_newest_first() {
    let mut s = AppState::new("STDIN STREAM".to_string(), 0);
    assert!(recent_events(&s).is_empty());
    for i in 0..25 {
        push_event_at(&mut s, "t", &format!("e{}", i));
    }
    let r = recent_events(&s);
    assert_eq!(r.len(), 18);
    assert_eq!(r[0], "[t] e24");
    assert_eq!(r[17], "[t] e7");
}

fn assert_well_formed(s: &AppState) {
    for g in [&s.signal, &s.pulse, &s.noise] {
        assert_eq!(g.len(), 90);
        assert!(g.iter().all(|v| *v <= 100));
    }
    assert!(s.events.len() <= 300);
    assert!(s.energy <= 100 && s.anomaly <= 100 && s.sync_rate <= 100);
    let expected = (100 - (s.anomaly as i32 * 7) / 10 + (s.sync_rate as i32 * 3) / 10).clamp(0, 100);
    assert_eq!(s.stability as i32, expected);
}

fn sine_wave(tick: usize) -> u64 {
    (((tick as f64 / 5.0).sin() + 1.0) * 40.0) as u64
}

#[test]
fn frames_keep_state_well_formed() {
    let mut s = AppState::new("SYNTHETIC STREAM".to_string(), 77);
    let mut now = 0u64;
    for frame in 0..1500usize {
        now += 95_000_000;
        let lines = if frame % 7 == 0 {
            vec![format!("line {} error", frame), "  ".to_string()]
        } else {
            Vec::new()
        };
        if frame % 200 == 0 {
            handle_key(&mut s, 'm');
        }
        update_state(&mut s, &lines, now, &parse_ms, &sine_wave);
        assert_well_formed(&s);
    }
    assert_eq!(s.tick, 1500);
    assert_eq!(s.events.len(), 300);
}

#[test]
fn flavour_ranges_hold() {
    for label in ["SYNTHETIC STREAM", "CALM STREAM", "CHAOS STREAM", "PULSE STORM"] {
        let mut s = AppState::new(label.to_string(), 11);
        for t in 0..400usize {
            s.tick = t;
            synthetic_tick(&mut s, 0, &sine_wave);
            if t % 16 < 4 {
                assert_eq!(s.sync_rate, 90);
            } else {
                assert!((8..35).contains(&s.sync_rate));
            }
            let a = s.anomaly;
            match label {
                "CALM STREAM" => assert!(a < 20),
                "CHAOS STREAM" => assert!((20..100).contains(&a)),
                "PULSE STORM" if t % 10 == 0 => assert_eq!(a, 100),
                "PULSE STORM" => assert!((5..55).contains(&a)),
                _ => assert!((5..70).contains(&a)),
            }
        }
    }
}

#[test]
fn slower_pings_never_look_healthier() {
    let mut last = (0u16, 100u16);
    for ms in [0u64, 10, 49, 50, 99, 119, 120, 150, 189, 190, 191, 400, 10_000] {
        let mut s = AppState::new("PING: h".to_string(), 0);
        vizr::ingest::ingest_line(&mut s, &format!("reply time={} ms", ms), &parse_ms);
        assert!(s.anomaly >= last.0);
        assert!(s.sync_rate <= last.1);
        assert!((5..=100).contains(&s.sync_rate));
        last = (s.anomaly, s.sync_rate);
    }
}

#[test]
fn matrix_cell_ignores_panel_size() {
    let small = generate_matrix(99, 10, 5, 40, 70, 20);
    let large = generate_matrix(99, 25, 9, 40, 70, 20);
    let small_rows: Vec<&str> = small.split('\n').collect();
    let large_rows: Vec<&str> = large.split('\n').collect();
    for y in 0..5 {
        assert!(large_rows[y].starts_with(small_rows[y]));
    }
    assert_eq!(generate_matrix(5, 3, 1, 0, 0, 0), generate_matrix(5, 8, 4, 0, 0, 0));
}
