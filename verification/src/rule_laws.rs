//! The scoring and display rules, stated case by case over their inputs: what
//! each adapter gives a line, what each synthetic flavour draws, which glyph a
//! matrix cell shows, which adapter a command line selects, and which colour a
//! severity gets.
use vstd::prelude::*;
use vstd::utf8::encode_utf8;
use crate::display::{Hue, entry_hue, glitch_frame, matrix_hue, spinner_frame};
use crate::ingest::line_metrics;
use crate::matrix::cell_glyph;
use crate::mode::{ModeSpec, parsed_mode};
use crate::rng::lcg_next;
use crate::synthetic::{synthetic_noise, synthetic_pulse, synthetic_stepped};
use crate::state::{Snapshot, entry_text, stability_of};
use crate::mode::next_label;
use crate::ingest::source_tag;
use crate::text::{begins_with, is_white_space, occurs_in, trim, trim_end, trim_start};
use crate::ping::ping_token;

verus! {

/// `v` capped at 100, as an energy reads a length.
pub open spec fn at_most_100(v: int) -> int {
    if v < 100 {
        v
    } else {
        100
    }
}

/// The length in UTF-8 bytes of a trimmed line, as `str::len` reports it,
/// capped at 100: the energy of a line without a keyword.
pub open spec fn length_energy(clean: Seq<char>) -> int {
    at_most_100((encode_utf8(clean).len() as usize) as int)
}

/// Ping adapter: a line with a reading of `ms` milliseconds has energy
/// `min(ms, 100)`, anomaly 5 below 50 ms, 25 below 120 ms and 75 beyond, and
/// sync `100 - min(ms / 2, 95)`. Without a reading, a line that reports an
/// unreachable host, a timeout, a failure or a loss scores `(95, 100, 0)`;
/// any other line has its length as energy, anomaly 8 and sync 70.
pub proof fn law_ping_adapter_rules(
    label: Seq<char>,
    clean: Seq<char>,
    upper: Seq<char>,
    ping: Option<u64>,
)
    requires
        begins_with(label, "PING"@),
    ensures
        ping matches Some(ms) ==> {
            let m = line_metrics(label, clean, upper, ping);
            &&& m.0 == at_most_100(ms as int)
            &&& ms < 50 ==> m.1 == 5
            &&& 50 <= ms < 120 ==> m.1 == 25
            &&& ms >= 120 ==> m.1 == 75
            &&& m.2 == 100 - (if ms / 2 < 95 { ms / 2 } else { 95 })
        },
        ping is None && (occurs_in(upper, "UNREACHABLE"@) || occurs_in(upper, "TIMEOUT"@)
            || occurs_in(upper, "FAIL"@) || occurs_in(upper, "LOSS"@)) ==> line_metrics(
            label,
            clean,
            upper,
            ping,
        ) == (95u64, 100u64, 0u64),
        ping is None && !occurs_in(upper, "UNREACHABLE"@) && !occurs_in(upper, "TIMEOUT"@)
            && !occurs_in(upper, "FAIL"@) && !occurs_in(upper, "LOSS"@) ==> {
            let m = line_metrics(label, clean, upper, ping);
            m.0 == length_energy(clean) && m.1 == 8 && m.2 == 70
        },
{
}

/// The build adapter's label does not start like the ping adapter's.
proof fn lemma_build_label_not_ping()
    ensures
        !begins_with("CARGO BUILD"@, "PING"@),
{
    reveal_strlit("CARGO BUILD");
    reveal_strlit("PING");
    assert("CARGO BUILD"@.subrange(0, 4)[0] != "PING"@[0]);
}

/// Build adapter: errors and failures score `(95, 100, 15)`; else warnings
/// `(70, 55, 50)`; else compiling lines `(75, 15, 80)`; else finished lines
/// `(35, 2, 100)`; any other line has its length as energy, anomaly 8 and sync
/// 70.
pub proof fn law_build_adapter_rules(clean: Seq<char>, upper: Seq<char>, ping: Option<u64>)
    ensures
        ({
            let m = line_metrics("CARGO BUILD"@, clean, upper, ping);
            let error = occurs_in(upper, "ERROR"@) || occurs_in(upper, "FAILED"@);
            let warning = occurs_in(upper, "WARNING"@) || occurs_in(upper, "WARN"@);
            let compiling = occurs_in(upper, "COMPILING"@);
            let finished = occurs_in(upper, "FINISHED"@);
            &&& error ==> m == (95u64, 100u64, 15u64)
            &&& !error && warning ==> m == (70u64, 55u64, 50u64)
            &&& !error && !warning && compiling ==> m == (75u64, 15u64, 80u64)
            &&& !error && !warning && !compiling && finished ==> m == (35u64, 2u64, 100u64)
            &&& !error && !warning && !compiling && !finished ==> m.0 == length_energy(clean)
                && m.1 == 8 && m.2 == 70
        }),
{
    lemma_build_label_not_ping();
}

/// File and tail adapters: the energy is the line's length and the sync 85; the
/// anomaly is 90 for errors, failures and panics, else 55 for warnings, else 10.
pub proof fn law_file_adapter_rules(
    label: Seq<char>,
    clean: Seq<char>,
    upper: Seq<char>,
    ping: Option<u64>,
)
    requires
        begins_with(label, "FILE"@) || begins_with(label, "TAIL"@),
    ensures
        ({
            let m = line_metrics(label, clean, upper, ping);
            let alarm = occurs_in(upper, "ERROR"@) || occurs_in(upper, "FAIL"@) || occurs_in(
                upper,
                "PANIC"@,
            );
            let warned = occurs_in(upper, "WARN"@) || occurs_in(upper, "WARNING"@);
            &&& m.0 == length_energy(clean)
            &&& m.2 == 85
            &&& alarm ==> m.1 == 90
            &&& !alarm && warned ==> m.1 == 55
            &&& !alarm && !warned ==> m.1 == 10
        }),
{
    reveal_strlit("FILE");
    reveal_strlit("TAIL");
    reveal_strlit("PING");
    reveal_strlit("CARGO BUILD");
    assert(label.subrange(0, 4)[0] == label[0]);
    assert(!begins_with(label, "PING"@)) by {
        if begins_with(label, "PING"@) {
            assert(label.subrange(0, 4)[0] == 'P');
        }
    }
    assert(label != "CARGO BUILD"@) by {
        if label == "CARGO BUILD"@ {
            assert(label[0] == 'C');
        }
    }
}

/// Every other adapter (stdin, synthetic): errors, failures and panics score
/// `(90, 95, 20)`; else warnings `(65, 60, 55)`; else completions and successes
/// `(35, 5, 100)`; any other line has its length as energy, anomaly 8 and sync
/// 70.
pub proof fn law_stream_adapter_rules(
    label: Seq<char>,
    clean: Seq<char>,
    upper: Seq<char>,
    ping: Option<u64>,
)
    requires
        !begins_with(label, "PING"@),
        label != "CARGO BUILD"@,
        !begins_with(label, "FILE"@),
        !begins_with(label, "TAIL"@),
    ensures
        ({
            let m = line_metrics(label, clean, upper, ping);
            let alarm = occurs_in(upper, "ERROR"@) || occurs_in(upper, "FAIL"@) || occurs_in(
                upper,
                "PANIC"@,
            );
            let warned = occurs_in(upper, "WARN"@) || occurs_in(upper, "WARNING"@);
            let good = occurs_in(upper, "FINISHED"@) || occurs_in(upper, "SUCCESS"@) || occurs_in(
                upper,
                "OK"@,
            );
            &&& alarm ==> m == (90u64, 95u64, 20u64)
            &&& !alarm && warned ==> m == (65u64, 60u64, 55u64)
            &&& !alarm && !warned && good ==> m == (35u64, 5u64, 100u64)
            &&& !alarm && !warned && !good ==> m.0 == length_energy(clean) && m.1 == 8 && m.2
                == 70
        }),
{
}

/// The pulse of a synthetic step on generator state `r`: 90 in the first four
/// of every sixteen ticks, with the generator untouched; otherwise the generator
/// advances to `n = lcg_next(r)` and the pulse is `8 + n % 27`.
pub proof fn law_synthetic_pulse(tick: usize, r: u64)
    ensures
        tick % 16 < 4 ==> synthetic_pulse(tick, r) == (r, 90u64),
        tick % 16 >= 4 ==> synthetic_pulse(tick, r).0 == lcg_next(r) && synthetic_pulse(tick, r).1
            == 8 + lcg_next(r) % 27,
{
}

/// The noise of a synthetic step on generator state `r`, with `n = lcg_next(r)`:
/// calm `n % 20`; chaos `20 + n % 80`; a pulse storm 100 on every tenth tick
/// (generator untouched) and `5 + n % 50` otherwise; the default flavour
/// `5 + n % 65`. Where a value is drawn, the generator advances to `n`.
pub proof fn law_synthetic_noise(label: Seq<char>, tick: usize, r: u64)
    ensures
        ({
            let out = synthetic_noise(label, tick, r);
            let n = lcg_next(r);
            &&& label == "CALM STREAM"@ ==> out.0 == n && out.1 == n % 20
            &&& label == "CHAOS STREAM"@ ==> out.0 == n && out.1 == 20 + n % 80
            &&& label == "PULSE STORM"@ && tick % 10 == 0 ==> out == (r, 100u64)
            &&& label == "PULSE STORM"@ && tick % 10 != 0 ==> out.0 == n && out.1 == 5 + n % 50
            &&& label == "SYNTHETIC STREAM"@ ==> out.0 == n && out.1 == 5 + n % 65
        }),
{
    reveal_strlit("SYNTHETIC STREAM");
    reveal_strlit("CALM STREAM");
    reveal_strlit("CHAOS STREAM");
    reveal_strlit("PULSE STORM");
    assert("SYNTHETIC STREAM"@.len() != "CALM STREAM"@.len());
    assert("SYNTHETIC STREAM"@.len() != "CHAOS STREAM"@.len());
    assert("SYNTHETIC STREAM"@.len() != "PULSE STORM"@.len());
    assert("CALM STREAM"@.len() != "CHAOS STREAM"@.len());
    assert("CHAOS STREAM"@.len() != "PULSE STORM"@.len());
    assert("CALM STREAM"@[0] != "PULSE STORM"@[0]);
}

/// Every chaos noise value in `20..100` is reached from some generator state:
/// the noise spans the whole range.
pub proof fn law_chaos_noise_spans(v: u64)
    requires
        20 <= v < 100,
    ensures
        exists|r: u64| #[trigger] synthetic_noise("CHAOS STREAM"@, 1, r).1 == v,
{
    law_synthetic_noise("CHAOS STREAM"@, 1, 0);
    law_generator_onto((v - 20) as u64);
    let r = choose|r: u64| lcg_next(r) == (v - 20) as u64;
    law_synthetic_noise("CHAOS STREAM"@, 1, r);
    assert(synthetic_noise("CHAOS STREAM"@, 1, r).1 == v);
}

/// Every `u64` is the successor of some generator state.
pub proof fn law_generator_onto(v: u64)
    ensures
        exists|r: u64| #[trigger] lcg_next(r) == v,
{
    let m: int = 0x1_0000_0000_0000_0000;
    let mul: int = crate::rng::LCG_MUL as int;
    let inc: int = crate::rng::LCG_INC as int;
    let inv: int = 13877824140714322085;
    let k: int = 4787856489426250814;
    assert(mul * inv == 1 + k * m);
    // r = (v - inc) * inv mod 2^64
    let d: int = v - inc;
    let r_int: int = (d * inv) % m;
    assert(0 <= r_int < m);
    let r = r_int as u64;
    let q = (d * inv) / m;
    vstd::arithmetic::div_mod::lemma_fundamental_div_mod(d * inv, m);
    assert(d * inv == m * q + r_int);
    assert(r_int * mul + inc == v + m * (d * k - q * mul)) by (nonlinear_arith)
        requires
            d * inv == m * q + r_int,
            mul * inv == 1 + k * m,
            d == v - inc,
    ;
    let t = d * k - q * mul;
    vstd::arithmetic::div_mod::lemma_fundamental_div_mod_converse(r_int * mul + inc, m, t, v as int);
    assert(lcg_next(r) == v);
}

/// The hot glyphs, by index.
pub open spec fn hot_glyphs() -> Seq<char> {
    seq!['#', '@', '*', '▓', '█', 'x', '%', '&']
}

/// The calm glyphs, by index.
pub open spec fn calm_glyphs() -> Seq<char> {
    seq!['0', '1', '.', '+', '░', '▒']
}

/// The rules of a matrix cell at column `x`, row `y`, tick `t`, with density
/// `min(energy / 6 + 2, 20)`, chaos `min(anomaly / 8 + 1, 15)` and coherence
/// `min(sync / 10 + 3, 14)`:
/// - when anomaly is above 40 and the fracture lattice
///   `(x + 2y + t) % (22 - chaos) == 0` hits, the hot glyph `(7x + 13y + t) % 8`;
/// - else, on the wave `(x + t / 2) % (24 - density) == 0`, a full block;
/// - else, on the scanline `(y + t / 3) % (18 - chaos) == 0`, a dark shade;
/// - else, where growth `(x * y + t + coherence) % 17 < density`, the hot glyph
///   `(3x + 5y + t) % 8`;
/// - else the calm glyph `(5x + 11y + t) % 6`.
pub proof fn law_matrix_cell_rules(t: int, x: int, y: int, energy: u16, anomaly: u16, sync: u16)
    requires
        t >= 0,
        x >= 0,
        y >= 0,
    ensures
        ({
            let density: int = if energy / 6 + 2 < 20 {
                energy / 6 + 2
            } else {
                20
            };
            let chaos: int = if anomaly / 8 + 1 < 15 {
                anomaly / 8 + 1
            } else {
                15
            };
            let coherence: int = if sync / 10 + 3 < 14 {
                sync / 10 + 3
            } else {
                14
            };
            let fracture = anomaly > 40 && (x + 2 * y + t) % (22 - chaos) == 0;
            let wave = (x + t / 2) % (24 - density) == 0;
            let scan = (y + t / 3) % (18 - chaos) == 0;
            let growth = (x * y + t + coherence) % 17 < density;
            let c = cell_glyph(t, x, y, energy, anomaly, sync);
            &&& fracture ==> c == hot_glyphs()[(7 * x + 13 * y + t) % 8]
            &&& !fracture && wave ==> c == '█'
            &&& !fracture && !wave && scan ==> c == '▓'
            &&& !fracture && !wave && !scan && growth ==> c == hot_glyphs()[(3 * x + 5 * y + t) % 8]
            &&& !fracture && !wave && !scan && !growth ==> c == calm_glyphs()[(5 * x + 11 * y + t)
                % 6]
        }),
{
    assert(y * 2 == 2 * y);
    assert(x * 7 + y * 13 + t == 7 * x + 13 * y + t);
    assert(x * 3 + y * 5 + t == 3 * x + 5 * y + t);
    assert(x * 5 + y * 11 + t == 5 * x + 11 * y + t);
}

/// The fracture lattice moves with the tick: under high anomaly, a fracture at
/// column `x` on tick `t` is a fracture at column `x - 1` on tick `t + 1`, and
/// both cells show hot glyphs whose indices differ by 1 (mod 8).
pub proof fn law_fracture_moves_with_tick(t: int, x: int, y: int, energy: u16, anomaly: u16, sync: u16)
    requires
        t >= 0,
        x >= 1,
        y >= 0,
        anomaly > 40,
        (x + 2 * y + t) % (22 - (if anomaly / 8 + 1 < 15 {
            anomaly / 8 + 1
        } else {
            15
        })) == 0,
    ensures
        cell_glyph(t, x, y, energy, anomaly, sync) == hot_glyphs()[(7 * x + 13 * y + t) % 8],
        cell_glyph(t + 1, x - 1, y, energy, anomaly, sync) == hot_glyphs()[(7 * (x - 1) + 13 * y
            + t + 1) % 8],
{
    law_matrix_cell_rules(t, x, y, energy, anomaly, sync);
    law_matrix_cell_rules(t + 1, x - 1, y, energy, anomaly, sync);
    assert((x - 1) + 2 * y + (t + 1) == x + 2 * y + t);
}

/// The adapter a command line selects: none or an unknown word gives the
/// synthetic stream; `--stdin`/`stdin` standard input; `--file`/`file` and
/// `tail` the path that follows (default `Cargo.toml`); `ping` the host that
/// follows (default `google.com`); `build` the build adapter.
pub proof fn law_command_line(args: Seq<Seq<char>>)
    ensures
        args.len() < 2 ==> parsed_mode(args) == ModeSpec::Synthetic,
        args.len() >= 2 && (args[1] == "--stdin"@ || args[1] == "stdin"@) ==> parsed_mode(args)
            == ModeSpec::Stdin,
        args.len() >= 3 && (args[1] == "--file"@ || args[1] == "file"@) ==> parsed_mode(args)
            == ModeSpec::File(args[2]),
        args.len() == 2 && (args[1] == "--file"@ || args[1] == "file"@) ==> parsed_mode(args)
            == ModeSpec::File("Cargo.toml"@),
        args.len() >= 3 && args[1] == "tail"@ ==> parsed_mode(args) == ModeSpec::Tail(args[2]),
        args.len() == 2 && args[1] == "tail"@ ==> parsed_mode(args) == ModeSpec::Tail(
            "Cargo.toml"@,
        ),
        args.len() >= 3 && args[1] == "ping"@ ==> parsed_mode(args) == ModeSpec::Ping(args[2]),
        args.len() == 2 && args[1] == "ping"@ ==> parsed_mode(args) == ModeSpec::Ping(
            "google.com"@,
        ),
        args.len() >= 2 && args[1] == "build"@ ==> parsed_mode(args) == ModeSpec::Build,
        args.len() >= 2 && args[1] != "--stdin"@ && args[1] != "stdin"@ && args[1] != "--file"@
            && args[1] != "file"@ && args[1] != "tail"@ && args[1] != "ping"@ && args[1]
            != "build"@ ==> parsed_mode(args) == ModeSpec::Synthetic,
{
    reveal_strlit("--stdin");
    reveal_strlit("stdin");
    reveal_strlit("--file");
    reveal_strlit("file");
    reveal_strlit("tail");
    reveal_strlit("ping");
    reveal_strlit("build");
    lemma_words_differ();
}

/// The command-line words are distinct.
proof fn lemma_words_differ()
    ensures
        "--stdin"@ != "--file"@,
        "--stdin"@ != "file"@,
        "--stdin"@ != "tail"@,
        "--stdin"@ != "ping"@,
        "--stdin"@ != "build"@,
        "stdin"@ != "--file"@,
        "stdin"@ != "file"@,
        "stdin"@ != "tail"@,
        "stdin"@ != "ping"@,
        "stdin"@ != "build"@,
        "--file"@ != "tail"@,
        "--file"@ != "ping"@,
        "--file"@ != "build"@,
        "file"@ != "tail"@,
        "file"@ != "ping"@,
        "file"@ != "build"@,
        "tail"@ != "ping"@,
        "tail"@ != "build"@,
        "ping"@ != "build"@,
{
    reveal_strlit("--stdin");
    reveal_strlit("stdin");
    reveal_strlit("--file");
    reveal_strlit("file");
    reveal_strlit("tail");
    reveal_strlit("ping");
    reveal_strlit("build");
    assert("--stdin"@[2] != "--file"@[2]);
    assert("--stdin"@.len() != "file"@.len());
    assert("--stdin"@.len() != "tail"@.len());
    assert("--stdin"@.len() != "ping"@.len());
    assert("--stdin"@.len() != "build"@.len());
    assert("stdin"@.len() != "--file"@.len());
    assert("stdin"@.len() != "file"@.len());
    assert("stdin"@.len() != "tail"@.len());
    assert("stdin"@.len() != "ping"@.len());
    assert("stdin"@[0] != "build"@[0]);
    assert("--file"@.len() != "tail"@.len());
    assert("--file"@.len() != "ping"@.len());
    assert("--file"@.len() != "build"@.len());
    assert("file"@[0] != "tail"@[0]);
    assert("file"@[0] != "ping"@[0]);
    assert("file"@.len() != "build"@.len());
    assert("tail"@[0] != "ping"@[0]);
    assert("tail"@.len() != "build"@.len());
    assert("ping"@.len() != "build"@.len());
}

/// The long and short spellings of a command-line word select the same adapter
/// with the same argument: `--file`/`file` and `--stdin`/`stdin`.
pub proof fn law_command_spellings(args: Seq<Seq<char>>)
    requires
        args.len() >= 2,
    ensures
        args[1] == "--file"@ ==> parsed_mode(args) == parsed_mode(args.update(1, "file"@)),
        args[1] == "--stdin"@ ==> parsed_mode(args) == parsed_mode(args.update(1, "stdin"@)),
{
    law_command_line(args);
    law_command_line(args.update(1, "file"@));
    law_command_line(args.update(1, "stdin"@));
}

/// Feed colours by severity: an entry naming an error, a failure or a panic is
/// red; else one naming a warning or a mode change is yellow; else one naming a
/// completion, a success or OK is green; any other entry is cyan.
pub proof fn law_entry_colours(e: Seq<char>)
    ensures
        ({
            let alarm = occurs_in(e, "ERROR"@) || occurs_in(e, "FAIL"@) || occurs_in(e, "PANIC"@);
            let warned = occurs_in(e, "WARN"@) || occurs_in(e, "WARNING"@) || occurs_in(
                e,
                "MODE"@,
            );
            let good = occurs_in(e, "FINISHED"@) || occurs_in(e, "SUCCESS"@) || occurs_in(e, "OK"@);
            &&& alarm ==> entry_hue(e) == Hue::Red
            &&& !alarm && warned ==> entry_hue(e) == Hue::Yellow
            &&& !alarm && !warned && good ==> entry_hue(e) == Hue::Green
            &&& !alarm && !warned && !good ==> entry_hue(e) == Hue::Cyan
        }),
{
}

/// The rank of a colour on the matrix's severity scale.
pub open spec fn severity(h: Hue) -> int {
    match h {
        Hue::Green => 0,
        Hue::Yellow => 1,
        Hue::Magenta => 2,
        Hue::Red => 3,
        Hue::Cyan => -1,
    }
}

/// Matrix colours by anomaly: green up to 20, yellow from 21 to 50, magenta from
/// 51 to 80, red above 80; more anomaly never gives a milder colour.
pub proof fn law_matrix_colours(a1: u16, a2: u16)
    ensures
        a1 <= 20 ==> matrix_hue(a1) == Hue::Green,
        21 <= a1 <= 50 ==> matrix_hue(a1) == Hue::Yellow,
        51 <= a1 <= 80 ==> matrix_hue(a1) == Hue::Magenta,
        a1 > 80 ==> matrix_hue(a1) == Hue::Red,
        a1 <= a2 ==> severity(matrix_hue(a1)) <= severity(matrix_hue(a2)),
{
}

/// Stability for metrics within `0..=100` is exactly
/// `min(100, 100 - floor(0.7 * anomaly) + floor(0.3 * sync))`.
pub proof fn law_stability_formula(anomaly: u16, sync: u16)
    requires
        anomaly <= 100,
        sync <= 100,
    ensures
        stability_of(anomaly, sync) == at_most_100(100 - (7 * anomaly) / 10 + (3 * sync) / 10),
{
    assert(anomaly * 7 == 7 * anomaly);
    assert(sync * 3 == 3 * sync);
}

/// A synthetic step from state `s` with wave `w` at time `now`: sync reads the
/// pulse `p`, anomaly the noise `q`, and energy `min((w + p + q) / 3, 100)`.
/// When more than 900 ms have passed since the last generator entry, one more
/// draw `d` from the generator picks the message: above 85 an anomaly spike,
/// above 70 a normalized packet, above 55 a synchronized pulse, else a telemetry
/// update; the entry is appended and `now` remembered. Otherwise the feed and
/// the remembered time stay as they are.
pub proof fn law_synthetic_step(s: Snapshot, w: u64, now: u64, stamp: Seq<char>)
    ensures
        ({
            let p = synthetic_pulse(s.tick, s.rng);
            let q = synthetic_noise(s.mode_label, s.tick, p.0);
            let r = synthetic_stepped(s, w, now, stamp);
            let due = now > s.last_event && now - s.last_event > 900_000_000;
            let d = lcg_next(q.0);
            let roll = d % 100;
            let msg = if roll > 85 {
                "ANOMALY spike detected in render stream"@
            } else if roll > 70 {
                "signal packet normalized"@
            } else if roll > 55 {
                "frame buffer pulse synchronized"@
            } else {
                "visual telemetry updated"@
            };
            &&& r.sync_rate == at_most_100(p.1 as int)
            &&& r.anomaly == at_most_100(q.1 as int)
            &&& r.energy == at_most_100((w + p.1 + q.1) / 3)
            &&& r.tick == s.tick
            &&& r.mode_label == s.mode_label
            &&& due ==> r.events.last() == entry_text(stamp, msg) && r.last_event == now && r.rng
                == d
            &&& !due ==> r.events == s.events && r.last_event == s.last_event && r.rng == q.0
        }),
{
}

/// The flavour rotation goes SYNTHETIC STREAM -> CALM STREAM -> CHAOS STREAM ->
/// PULSE STORM -> SYNTHETIC STREAM, and any other label goes to SYNTHETIC
/// STREAM.
pub proof fn law_rotation_order(label: Seq<char>)
    ensures
        label == "SYNTHETIC STREAM"@ ==> next_label(label) == "CALM STREAM"@,
        label == "CALM STREAM"@ ==> next_label(label) == "CHAOS STREAM"@,
        label == "CHAOS STREAM"@ ==> next_label(label) == "PULSE STORM"@,
        label == "PULSE STORM"@ ==> next_label(label) == "SYNTHETIC STREAM"@,
        label != "SYNTHETIC STREAM"@ && label != "CALM STREAM"@ && label != "CHAOS STREAM"@
            && label != "PULSE STORM"@ ==> next_label(label) == "SYNTHETIC STREAM"@,
{
    reveal_strlit("SYNTHETIC STREAM");
    reveal_strlit("CALM STREAM");
    reveal_strlit("CHAOS STREAM");
    reveal_strlit("PULSE STORM");
    assert("SYNTHETIC STREAM"@.len() != "CALM STREAM"@.len());
    assert("SYNTHETIC STREAM"@.len() != "CHAOS STREAM"@.len());
    assert("SYNTHETIC STREAM"@.len() != "PULSE STORM"@.len());
    assert("CALM STREAM"@.len() != "CHAOS STREAM"@.len());
    assert("CHAOS STREAM"@.len() != "PULSE STORM"@.len());
    assert("CALM STREAM"@[0] != "PULSE STORM"@[0]);
}

/// Feed tags name the source: `[PING] ` for the ping adapter, `[BUILD] ` for the
/// build adapter, `[STDIN] ` for standard input, and no tag for files, tails and
/// the synthetic flavours.
pub proof fn law_source_tags(label: Seq<char>)
    ensures
        begins_with(label, "PING"@) ==> source_tag(label) == "[PING] "@,
        label == "CARGO BUILD"@ ==> source_tag(label) == "[BUILD] "@,
        label == "STDIN STREAM"@ ==> source_tag(label) == "[STDIN] "@,
        begins_with(label, "FILE"@) || begins_with(label, "TAIL"@) || label == "SYNTHETIC STREAM"@
            || label == "CALM STREAM"@ || label == "CHAOS STREAM"@ || label == "PULSE STORM"@
            ==> source_tag(label) == Seq::<char>::empty(),
{
    reveal_strlit("PING");
    reveal_strlit("FILE");
    reveal_strlit("TAIL");
    reveal_strlit("CARGO BUILD");
    reveal_strlit("STDIN STREAM");
    reveal_strlit("SYNTHETIC STREAM");
    reveal_strlit("CALM STREAM");
    reveal_strlit("CHAOS STREAM");
    reveal_strlit("PULSE STORM");
    lemma_build_label_not_ping();
    if label == "STDIN STREAM"@ {
        assert(label.subrange(0, 4)[0] != "PING"@[0]);
        assert(label[0] != 'C');
    }
    if begins_with(label, "FILE"@) || begins_with(label, "TAIL"@) {
        assert(label.subrange(0, 4)[0] == label[0]);
        assert(!begins_with(label, "PING"@)) by {
            if begins_with(label, "PING"@) {
                assert(label.subrange(0, 4)[0] == 'P');
            }
        }
        assert(label[0] != 'C' && label[0] != 'S');
    }
    if label == "SYNTHETIC STREAM"@ {
        assert(label.subrange(0, 4)[0] != "PING"@[0]);
        assert(label.len() != "CARGO BUILD"@.len() && label.len() != "STDIN STREAM"@.len());
    }
    if label == "CALM STREAM"@ {
        assert(label.subrange(0, 4)[0] != "PING"@[0]);
        assert(label[2] != "CARGO BUILD"@[2] && label.len() != "STDIN STREAM"@.len());
    }
    if label == "CHAOS STREAM"@ {
        assert(label.subrange(0, 4)[0] != "PING"@[0]);
        assert(label.len() != "CARGO BUILD"@.len() && label[0] != "STDIN STREAM"@[0]);
    }
    if label == "PULSE STORM"@ {
        assert(label.subrange(0, 4)[1] != "PING"@[1]);
        assert(label[0] != "CARGO BUILD"@[0] && label.len() != "STDIN STREAM"@.len());
    }
}

/// Substring and prefix tests: `pat` occurs in `hay` exactly when some window
/// of `hay` equals it, and `hay` begins with `pat` exactly when its first
/// `pat.len()` chars are `pat`.
pub proof fn law_substring_tests(hay: Seq<char>, pat: Seq<char>)
    ensures
        occurs_in(hay, pat) <==> exists|i: int|
            0 <= i && i + pat.len() <= hay.len() && #[trigger] hay.subrange(i, i + pat.len()) == pat,
        begins_with(hay, pat) <==> pat.len() <= hay.len() && hay.take(pat.len() as int) == pat,
{
    if occurs_in(hay, pat) {
        let i = choose|i: int| crate::text::occurs_at(hay, pat, i);
        assert(hay.subrange(i, i + pat.len()) == pat);
    }
    if exists|i: int|
        0 <= i && i + pat.len() <= hay.len() && #[trigger] hay.subrange(i, i + pat.len()) == pat {
        let i = choose|i: int|
            0 <= i && i + pat.len() <= hay.len() && #[trigger] hay.subrange(i, i + pat.len()) == pat;
        assert(crate::text::occurs_at(hay, pat, i));
    }
    if begins_with(hay, pat) {
        assert(hay.take(pat.len() as int) =~= hay.subrange(0, pat.len() as int));
    }
    if pat.len() <= hay.len() && hay.take(pat.len() as int) == pat {
        assert(hay.take(pat.len() as int) =~= hay.subrange(0, pat.len() as int));
    }
}

/// Removing leading whitespace drops a run of whitespace chars and stops at the
/// first other char.
proof fn lemma_trim_start_shape(s: Seq<char>)
    ensures
        exists|a: int|
            0 <= a <= s.len() && #[trigger] s.skip(a) == trim_start(s) && (forall|i: int|
                0 <= i < a ==> is_white_space(s[i])) && (a < s.len() ==> !is_white_space(s[a])),
    decreases s.len(),
{
    if s.len() > 0 && is_white_space(s[0]) {
        lemma_trim_start_shape(s.drop_first());
        let a = choose|a: int|
            0 <= a <= s.drop_first().len() && #[trigger] s.drop_first().skip(a) == trim_start(
                s.drop_first(),
            ) && (forall|i: int| 0 <= i < a ==> is_white_space(s.drop_first()[i])) && (a
                < s.drop_first().len() ==> !is_white_space(s.drop_first()[a]));
        assert(s.skip(a + 1) =~= s.drop_first().skip(a));
        assert forall|i: int| 0 <= i < a + 1 implies is_white_space(s[i]) by {
            if i > 0 {
                assert(s[i] == s.drop_first()[i - 1]);
            }
        }
    } else {
        assert(s.skip(0) =~= s);
    }
}

/// Removing trailing whitespace drops a run of whitespace chars and stops at
/// the last other char.
proof fn lemma_trim_end_shape(s: Seq<char>)
    ensures
        exists|b: int|
            0 <= b <= s.len() && #[trigger] s.take(b) == trim_end(s) && (forall|i: int|
                b <= i < s.len() ==> is_white_space(s[i])) && (b > 0 ==> !is_white_space(s[b - 1])),
    decreases s.len(),
{
    if s.len() > 0 && is_white_space(s.last()) {
        lemma_trim_end_shape(s.drop_last());
        let b = choose|b: int|
            0 <= b <= s.drop_last().len() && #[trigger] s.drop_last().take(b) == trim_end(
                s.drop_last(),
            ) && (forall|i: int| b <= i < s.drop_last().len() ==> is_white_space(s.drop_last()[i]))
                && (b > 0 ==> !is_white_space(s.drop_last()[b - 1]));
        assert(s.take(b) =~= s.drop_last().take(b));
        assert forall|i: int| b <= i < s.len() implies is_white_space(s[i]) by {
            if i < s.len() - 1 {
                assert(s[i] == s.drop_last()[i]);
            }
        }
        if b > 0 {
            assert(s[b - 1] == s.drop_last()[b - 1]);
        }
    } else {
        assert(s.take(s.len() as int) =~= s);
    }
}

/// Trimming keeps a contiguous slice of the line: everything before and after
/// it is whitespace, and the slice neither starts nor ends with whitespace.
pub proof fn law_trim_slice(s: Seq<char>)
    ensures
        exists|a: int, b: int|
            {
                &&& 0 <= a <= b <= s.len()
                &&& #[trigger] s.subrange(a, b) == trim(s)
                &&& forall|i: int| 0 <= i < a ==> is_white_space(s[i])
                &&& forall|i: int| b <= i < s.len() ==> is_white_space(s[i])
                &&& a < b ==> !is_white_space(s[a]) && !is_white_space(s[b - 1])
            },
{
    lemma_trim_start_shape(s);
    let a = choose|a: int|
        0 <= a <= s.len() && #[trigger] s.skip(a) == trim_start(s) && (forall|i: int|
            0 <= i < a ==> is_white_space(s[i])) && (a < s.len() ==> !is_white_space(s[a]));
    let t = s.skip(a);
    lemma_trim_end_shape(t);
    let b = choose|b: int|
        0 <= b <= t.len() && #[trigger] t.take(b) == trim_end(t) && (forall|i: int|
            b <= i < t.len() ==> is_white_space(t[i])) && (b > 0 ==> !is_white_space(t[b - 1]));
    assert(t.take(b) =~= s.subrange(a, a + b));
    assert forall|i: int| a + b <= i < s.len() implies is_white_space(s[i]) by {
        assert(s[i] == t[i - a]);
    }
    if b > 0 {
        assert(s[a] == t[0]);
        assert(s[a + b - 1] == t[b - 1]);
    }
    assert(0 <= a <= a + b <= s.len() && s.subrange(a, a + b) == trim(s));
}

/// A ping reading is text without whitespace that does not end in `ms`; there
/// is none for a line without the `time=` marker.
pub proof fn law_ping_token_shape(line: Seq<char>)
    ensures
        crate::text::first_occurrence(line, "time="@) is None ==> ping_token(line) is None,
        ping_token(line) matches Some(t) ==> (forall|i: int| 0 <= i < t.len() ==> !is_white_space(
            #[trigger] t[i],
        )) && !(t.len() >= 2 && t[t.len() - 2] == 'm' && t[t.len() - 1] == 's'),
{
    match crate::text::first_occurrence(line, "time="@) {
        None => {},
        Some(i) => {
            let rest = line.skip(i + "time="@.len());
            let ts = trim_start(rest);
            if ts.len() > 0 {
                lemma_word_has_no_space(ts);
                lemma_strip_ms_shape(crate::ping::take_word(ts));
            }
        },
    }
}

/// A word holds no whitespace.
proof fn lemma_word_has_no_space(s: Seq<char>)
    ensures
        forall|i: int|
            0 <= i < crate::ping::take_word(s).len() ==> !is_white_space(
                #[trigger] crate::ping::take_word(s)[i],
            ),
    decreases s.len(),
{
    if s.len() > 0 && !is_white_space(s[0]) {
        lemma_word_has_no_space(s.drop_first());
        let w = crate::ping::take_word(s);
        assert forall|i: int| 0 <= i < w.len() implies !is_white_space(#[trigger] w[i]) by {
            if i > 0 {
                assert(w[i] == crate::ping::take_word(s.drop_first())[i - 1]);
            }
        }
    }
}

/// Stripping `ms` suffixes leaves a prefix of the word that does not end in
/// `ms`.
proof fn lemma_strip_ms_shape(s: Seq<char>)
    ensures
        ({
            let t = crate::ping::strip_ms(s);
            &&& t.len() <= s.len()
            &&& t == s.take(t.len() as int)
            &&& !(t.len() >= 2 && t[t.len() - 2] == 'm' && t[t.len() - 1] == 's')
        }),
    decreases s.len(),
{
    if s.len() >= 2 && s[s.len() - 2] == 'm' && s[s.len() - 1] == 's' {
        let s2 = s.take(s.len() - 2);
        lemma_strip_ms_shape(s2);
        let t = crate::ping::strip_ms(s2);
        assert(s2.take(t.len() as int) =~= s.take(t.len() as int));
    } else {
        assert(s.take(s.len() as int) =~= s);
    }
}

/// The header animation cycles through six frames: the spinner
/// `◢ ◣ ◤ ◥ ◆ ◇` and the glitch patterns `░▒▓ ▒▓█ ▓█▓ █▓▒ ▓▒░ ▒░▒`.
pub proof fn law_header_frames(i: int)
    requires
        0 <= i < 6,
    ensures
        spinner_frame(i) == seq!['◢', '◣', '◤', '◥', '◆', '◇'][i],
        glitch_frame(i) == seq![
            seq!['░', '▒', '▓'],
            seq!['▒', '▓', '█'],
            seq!['▓', '█', '▓'],
            seq!['█', '▓', '▒'],
            seq!['▓', '▒', '░'],
            seq!['▒', '░', '▒'],
        ][i],
{
}

} // verus!
