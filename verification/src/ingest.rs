//! Turning one input line into a metrics sample and a feed entry, by rules
//! that depend on the adapter.
use vstd::prelude::*;
use vstd::utf8::encode_utf8;
use crate::ping::{extract_ping_ms, ping_reading};
use crate::state::{
    AppState, Snapshot, apply_metrics, event_logged, entry_text, metrics_applied, push_event,
};
use crate::clock::stamp_shape;
use crate::text::{
    begins_with, chars_of, contains_chars, occurs_in, same_text, starts_with_chars, to_uppercase,
    trim, trim_str, uppercase,
};

verus! {

/// The length of `s` in UTF-8 bytes (as `str::len` reports it), capped at 100.
pub open spec fn byte_len_capped(s: Seq<char>) -> u64 {
    let n = encode_utf8(s).len() as usize;
    if n < 100 {
        n as u64
    } else {
        100
    }
}

/// The anomaly score of a ping round trip of `ms` milliseconds.
pub open spec fn ping_anomaly(ms: u64) -> u64 {
    if ms < 50 {
        5
    } else if ms < 120 {
        25
    } else {
        75
    }
}

/// The sync score of a ping round trip: `100 - min(ms / 2, 95)`.
pub open spec fn ping_sync(ms: u64) -> u64 {
    if ms / 2 < 95 {
        (100 - ms / 2) as u64
    } else {
        5
    }
}

/// The sample `(energy, anomaly, sync)` that a non-empty trimmed line `clean`
/// (uppercased: `upper`) gives under the adapter labelled `label`; `ping` is the
/// round trip read from the line, used by the ping adapter only.
pub open spec fn line_metrics(
    label: Seq<char>,
    clean: Seq<char>,
    upper: Seq<char>,
    ping: Option<u64>,
) -> (u64, u64, u64) {
    let base = byte_len_capped(clean);
    let alarm = occurs_in(upper, "ERROR"@) || occurs_in(upper, "FAIL"@) || occurs_in(
        upper,
        "PANIC"@,
    );
    let warned = occurs_in(upper, "WARN"@) || occurs_in(upper, "WARNING"@);
    if begins_with(label, "PING"@) {
        match ping {
            Some(ms) => (if ms < 100 { ms } else { 100 }, ping_anomaly(ms), ping_sync(ms)),
            None => if occurs_in(upper, "UNREACHABLE"@) || occurs_in(upper, "TIMEOUT"@)
                || occurs_in(upper, "FAIL"@) || occurs_in(upper, "LOSS"@) {
                (95, 100, 0)
            } else {
                (base, 8, 70)
            },
        }
    } else if label == "CARGO BUILD"@ {
        if occurs_in(upper, "ERROR"@) || occurs_in(upper, "FAILED"@) {
            (95, 100, 15)
        } else if occurs_in(upper, "WARNING"@) || occurs_in(upper, "WARN"@) {
            (70, 55, 50)
        } else if occurs_in(upper, "COMPILING"@) {
            (75, 15, 80)
        } else if occurs_in(upper, "FINISHED"@) {
            (35, 2, 100)
        } else {
            (base, 8, 70)
        }
    } else if begins_with(label, "FILE"@) || begins_with(label, "TAIL"@) {
        (
            base,
            if alarm {
                90
            } else if warned {
                55
            } else {
                10
            },
            85,
        )
    } else if alarm {
        (90, 95, 20)
    } else if warned {
        (65, 60, 55)
    } else if occurs_in(upper, "FINISHED"@) || occurs_in(upper, "SUCCESS"@) || occurs_in(
        upper,
        "OK"@,
    ) {
        (35, 5, 100)
    } else {
        (base, 8, 70)
    }
}

/// The tag that names the source of a line in the feed: `[PING] `, `[BUILD] `
/// or `[STDIN] ` for those adapters, nothing for the others.
pub open spec fn source_tag(label: Seq<char>) -> Seq<char> {
    if begins_with(label, "PING"@) {
        "[PING] "@
    } else if label == "CARGO BUILD"@ {
        "[BUILD] "@
    } else if label == "STDIN STREAM"@ {
        "[STDIN] "@
    } else {
        Seq::empty()
    }
}

/// The state after a non-empty trimmed line `clean`: its sample is applied and
/// it is added to the feed, tagged with its source, with `stamp`.
pub open spec fn line_ingested(
    s: Snapshot,
    clean: Seq<char>,
    upper: Seq<char>,
    ping: Option<u64>,
    stamp: Seq<char>,
) -> Snapshot {
    let m = line_metrics(s.mode_label, clean, upper, ping);
    event_logged(
        metrics_applied(s, m.0, m.1, m.2),
        entry_text(stamp, source_tag(s.mode_label) + clean),
    )
}

/// The state after a raw line: unchanged when it is blank, else the trimmed line
/// is ingested.
pub open spec fn line_step(s: Snapshot, line: Seq<char>, ping: Option<u64>, stamp: Seq<char>) -> Snapshot {
    let c = trim(line);
    if c.len() == 0 {
        s
    } else {
        line_ingested(s, c, uppercase(c), ping, stamp)
    }
}

/// Under the ping adapter, for a line that is not blank, `ping` is what `parse`
/// reads from the trimmed line.
pub open spec fn ping_fits<P: Fn(&str) -> Option<u64>>(
    parse: P,
    s: Snapshot,
    line: Seq<char>,
    ping: Option<u64>,
) -> bool {
    begins_with(s.mode_label, "PING"@) && trim(line).len() > 0 ==> ping_reading(
        parse,
        trim(line),
        ping,
    )
}

/// The feed tag for the adapter labelled `label`.
pub fn source_tag_of(label: &str) -> (res: String)
    ensures
        res@ == source_tag(label@),
{
    let l = chars_of(label);
    if starts_with_chars(&l, "PING") {
        String::from_str("[PING] ")
    } else if same_text(label, "CARGO BUILD") {
        String::from_str("[BUILD] ")
    } else if same_text(label, "STDIN STREAM") {
        String::from_str("[STDIN] ")
    } else {
        String::new()
    }
}

/// The sample `(energy, anomaly, sync)` of the trimmed line `clean` (uppercased:
/// `upper`) under the adapter labelled `label`, with `ping` the round trip read
/// from the line.
pub fn line_metrics_of(label: &str, clean: &str, upper: &str, ping: Option<u64>) -> (res: (
    u64,
    u64,
    u64,
))
    ensures
        res == line_metrics(label@, clean@, upper@, ping),
{
    let upper = chars_of(upper);
    let label_chars = chars_of(label);
    let len = clean.len();
    let base: u64 = if len < 100 {
        len as u64
    } else {
        100
    };
    assert(base == byte_len_capped(clean@));
    if starts_with_chars(&label_chars, "PING") {
        match ping {
            Some(ms) => {
                let energy = if ms < 100 {
                    ms
                } else {
                    100
                };
                let anomaly = if ms < 50 {
                    5
                } else if ms < 120 {
                    25
                } else {
                    75
                };
                let half = ms / 2;
                let sync = 100 - (if half < 95 {
                    half
                } else {
                    95
                });
                (energy, anomaly, sync)
            },
            None => {
                if contains_chars(&upper, "UNREACHABLE") || contains_chars(&upper, "TIMEOUT")
                    || contains_chars(&upper, "FAIL") || contains_chars(&upper, "LOSS") {
                    (95, 100, 0)
                } else {
                    (base, 8, 70)
                }
            },
        }
    } else if same_text(label, "CARGO BUILD") {
        if contains_chars(&upper, "ERROR") || contains_chars(&upper, "FAILED") {
            (95, 100, 15)
        } else if contains_chars(&upper, "WARNING") || contains_chars(&upper, "WARN") {
            (70, 55, 50)
        } else if contains_chars(&upper, "COMPILING") {
            (75, 15, 80)
        } else if contains_chars(&upper, "FINISHED") {
            (35, 2, 100)
        } else {
            (base, 8, 70)
        }
    } else if starts_with_chars(&label_chars, "FILE") || starts_with_chars(&label_chars, "TAIL") {
        let anomaly = if contains_chars(&upper, "ERROR") || contains_chars(&upper, "FAIL")
            || contains_chars(&upper, "PANIC") {
            90
        } else if contains_chars(&upper, "WARN") || contains_chars(&upper, "WARNING") {
            55
        } else {
            10
        };
        (base, anomaly, 85)
    } else if contains_chars(&upper, "ERROR") || contains_chars(&upper, "FAIL") || contains_chars(
        &upper,
        "PANIC",
    ) {
        (90, 95, 20)
    } else if contains_chars(&upper, "WARN") || contains_chars(&upper, "WARNING") {
        (65, 60, 55)
    } else if contains_chars(&upper, "FINISHED") || contains_chars(&upper, "SUCCESS")
        || contains_chars(&upper, "OK") {
        (35, 5, 100)
    } else {
        (base, 8, 70)
    }
}

/// Ingests one input line. Blank lines change nothing; otherwise the trimmed
/// line yields a sample by the adapter's rules (`line_metrics`) and is added to
/// the feed, tagged with its source and stamped with the local time. `parse`
/// turns the numeric text of a ping line into milliseconds.
pub fn ingest_line<P: Fn(&str) -> Option<u64>>(state: &mut AppState, line: &str, parse: &P)
    requires
        forall|t: &str| #[trigger] parse.requires((t,)),
    ensures
        exists|ping: Option<u64>, stamp: Seq<char>|
            {
                &&& ping_fits(*parse, old(state)@, line@, ping)
                &&& trim(line@).len() > 0 ==> stamp_shape(stamp)
                &&& final(state)@ == #[trigger] line_step(old(state)@, line@, ping, stamp)
            },
{
    let clean = trim_str(line);
    if clean.is_empty() {
        assert(line_step(old(state)@, line@, None, Seq::empty()) == old(state)@);
        return;
    }
    let upper = to_uppercase(clean);
    let label_chars = chars_of(state.mode_label.as_str());
    let ping = if starts_with_chars(&label_chars, "PING") {
        extract_ping_ms(clean, parse)
    } else {
        None
    };
    let (energy, anomaly, sync) = line_metrics_of(state.mode_label.as_str(), clean, upper.as_str(), ping);
    let mut msg = source_tag_of(state.mode_label.as_str());
    msg.append(clean);
    let ghost s0 = old(state)@;
    let ghost c = trim(line@);
    apply_metrics(state, energy, anomaly, sync);
    push_event(state, msg.as_str());
    let ghost stamp = choose|stamp: Seq<char>|
        stamp_shape(stamp) && state@ == event_logged(
            metrics_applied(s0, energy, anomaly, sync),
            #[trigger] entry_text(stamp, msg@),
        );
    assert(ping_fits(*parse, s0, line@, ping));
    assert(state@ == line_step(s0, line@, ping, stamp));
}

} // verus!
