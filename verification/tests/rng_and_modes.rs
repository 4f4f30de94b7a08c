use vizr::mode::{is_synthetic_mode, mode_label, next_mode_label, parse_mode, InputMode};
use vizr::rng::SimpleRng;

fn lcg(s: u64) -> u64 {
    s.wrapping_mul(6364136223846793005).wrapping_add(1442695040888963407)
}

fn args(list: &[&str]) -> Vec<String> {
    list.iter().map(|s| s.to_string()).collect()
}

#[test]
fn rng_new_keeps_seed() {
    let r = SimpleRng::new(42);
    assert_eq!(r.state, 42);
}

#[test]
fn rng_next_is_the_lcg_step() {
    let mut r = SimpleRng::new(0);
    let a = r.next_u64();
    assert_eq!(a, 1442695040888963407);
    assert_eq!(r.state, a);
    let b = r.next_u64();
    assert_eq!(b, lcg(1442695040888963407));
    let mut big = SimpleRng::new(u64::MAX);
    assert_eq!(big.next_u64(), lcg(u64::MAX));
}

#[test]
fn rng_range_draws_within_bounds() {
    let mut r = SimpleRng::new(7);
    let expected = 8 + lcg(7) % 27;
    assert_eq!(r.range(8, 35), expected);
    for _ in 0..1000 {
        let v = r.range(20, 100);
        assert!((20..100).contains(&v));
    }
}

#[test]
fn rng_empty_range_gives_start_and_keeps_state() {
    let mut r = SimpleRng::new(99);
    assert_eq!(r.range(5, 5), 5);
    assert_eq!(r.range(9, 3), 9);
    assert_eq!(r.state, 99);
}

#[test]
fn rng_same_seed_same_stream() {
    let mut a = SimpleRng::new(1234);
    let mut b = SimpleRng::new(1234);
    for _ in 0..50 {
        assert_eq!(a.range(0, 100), b.range(0, 100));
    }
}

#[test]
fn parse_mode_selects_adapters() {
    assert!(matches!(parse_mode(&args(&["vizr"])), InputMode::Synthetic));
    assert!(matches!(parse_mode(&args(&["vizr", "--stdin"])), InputMode::Stdin));
    assert!(matches!(parse_mode(&args(&["vizr", "stdin"])), InputMode::Stdin));
    assert!(matches!(parse_mode(&args(&["vizr", "build"])), InputMode::Build));
    assert!(matches!(parse_mode(&args(&["vizr", "whatever"])), InputMode::Synthetic));
    match parse_mode(&args(&["vizr", "ping", "example.org"])) {
        InputMode::Ping(h) => assert_eq!(h, "example.org"),
        _ => panic!("expected ping"),
    }
    match parse_mode(&args(&["vizr", "ping"])) {
        InputMode::Ping(h) => assert_eq!(h, "google.com"),
        _ => panic!("expected ping"),
    }
    match parse_mode(&args(&["vizr", "--file"])) {
        InputMode::File(p) => assert_eq!(p, "Cargo.toml"),
        _ => panic!("expected file"),
    }
    match parse_mode(&args(&["vizr", "file", "log.txt"])) {
        InputMode::File(p) => assert_eq!(p, "log.txt"),
        _ => panic!("expected file"),
    }
    match parse_mode(&args(&["vizr", "tail", "app.log"])) {
        InputMode::Tail(p) => assert_eq!(p, "app.log"),
        _ => panic!("expected tail"),
    }
}

#[test]
fn mode_labels() {
    assert_eq!(mode_label(&InputMode::Synthetic), "SYNTHETIC STREAM");
    assert_eq!(mode_label(&InputMode::Stdin), "STDIN STREAM");
    assert_eq!(mode_label(&InputMode::Build), "CARGO BUILD");
    assert_eq!(mode_label(&InputMode::File("a.txt".to_string())), "FILE: a.txt");
    assert_eq!(mode_label(&InputMode::Tail("b.log".to_string())), "TAIL: b.log");
    assert_eq!(mode_label(&InputMode::Ping("host".to_string())), "PING: host");
}

#[test]
fn synthetic_labels_are_recognized() {
    for l in ["SYNTHETIC STREAM", "CALM STREAM", "CHAOS STREAM", "PULSE STORM"] {
        assert!(is_synthetic_mode(l));
    }
    for l in ["STDIN STREAM", "CARGO BUILD", "PING: host", "FILE: x", "", "calm stream"] {
        assert!(!is_synthetic_mode(l));
    }
    assert!(is_synthetic_mode(&mode_label(&InputMode::Synthetic)));
    assert!(!is_synthetic_mode(&mode_label(&InputMode::Stdin)));
}

#[test]
fn rotation_has_period_four() {
    assert_eq!(next_mode_label("SYNTHETIC STREAM"), "CALM STREAM");
    assert_eq!(next_mode_label("CALM STREAM"), "CHAOS STREAM");
    assert_eq!(next_mode_label("CHAOS STREAM"), "PULSE STORM");
    assert_eq!(next_mode_label("PULSE STORM"), "SYNTHETIC STREAM");
    assert_eq!(next_mode_label("PING: host"), "SYNTHETIC STREAM");
    let mut l = "CHAOS STREAM".to_string();
    for _ in 0..4 {
        l = next_mode_label(&l);
    }
    assert_eq!(l, "CHAOS STREAM");
}

#[test]
fn generator_step_is_injective_and_flips_low_bit() {
    let seeds = [0u64, 1, 2, 3, 42, u64::MAX, u64::MAX - 1, 1 << 63];
    for (i, a) in seeds.iter().enumerate() {
        let na = SimpleRng::new(*a).next_u64();
        assert_ne!(na % 2, a % 2);
        for b in seeds.iter().skip(i + 1) {
            assert_ne!(na, SimpleRng::new(*b).next_u64());
        }
    }
}
