//! What the dashboard shows, decided from the state: colours, header
//! animation frames, the visible slice of the feed and the matrix panel.
use vstd::prelude::*;
use crate::matrix::{generate_matrix, matrix_text};
use crate::state::AppState;
use crate::text::{chars_of, contains_chars, occurs_in, push_char};

verus! {

/// A display colour.
#[derive(Clone, Copy, Debug, PartialEq, Eq, Structural)]
pub enum Hue {
    Green,
    Yellow,
    Magenta,
    Red,
    Cyan,
}

/// The matrix colour for an anomaly level: green up to 20, yellow up to 50,
/// magenta up to 80, red above.
pub open spec fn matrix_hue(anomaly: u16) -> Hue {
    if anomaly <= 20 {
        Hue::Green
    } else if anomaly <= 50 {
        Hue::Yellow
    } else if anomaly <= 80 {
        Hue::Magenta
    } else {
        Hue::Red
    }
}

/// The colour of a feed entry: red for errors, failures and panics, yellow for
/// warnings and mode changes, green for completions, cyan otherwise.
pub open spec fn entry_hue(e: Seq<char>) -> Hue {
    if occurs_in(e, "ERROR"@) || occurs_in(e, "FAIL"@) || occurs_in(e, "PANIC"@) {
        Hue::Red
    } else if occurs_in(e, "WARN"@) || occurs_in(e, "WARNING"@) || occurs_in(e, "MODE"@) {
        Hue::Yellow
    } else if occurs_in(e, "FINISHED"@) || occurs_in(e, "SUCCESS"@) || occurs_in(e, "OK"@) {
        Hue::Green
    } else {
        Hue::Cyan
    }
}

/// The spinner glyph for frame `i` of six.
pub open spec fn spinner_frame(i: int) -> char {
    if i == 0 {
        '◢'
    } else if i == 1 {
        '◣'
    } else if i == 2 {
        '◤'
    } else if i == 3 {
        '◥'
    } else if i == 4 {
        '◆'
    } else {
        '◇'
    }
}

/// The three-glyph glitch pattern for frame `i` of six.
pub open spec fn glitch_frame(i: int) -> Seq<char> {
    if i == 0 {
        seq!['░', '▒', '▓']
    } else if i == 1 {
        seq!['▒', '▓', '█']
    } else if i == 2 {
        seq!['▓', '█', '▓']
    } else if i == 3 {
        seq!['█', '▓', '▒']
    } else if i == 4 {
        seq!['▓', '▒', '░']
    } else {
        seq!['▒', '░', '▒']
    }
}

/// `s` repeated `n` times.
pub open spec fn repeated(s: Seq<char>, n: nat) -> Seq<char>
    decreases n,
{
    if n == 0 {
        Seq::empty()
    } else {
        repeated(s, (n - 1) as nat) + s
    }
}

/// How many feed entries the dashboard lists.
pub const FEED_ROWS: usize = 18;

/// The colour of the render matrix at an anomaly level.
pub fn matrix_color(anomaly: u16) -> (res: Hue)
    ensures
        res == matrix_hue(anomaly),
{
    if anomaly <= 20 {
        Hue::Green
    } else if anomaly <= 50 {
        Hue::Yellow
    } else if anomaly <= 80 {
        Hue::Magenta
    } else {
        Hue::Red
    }
}

/// The colour of a feed entry.
pub fn event_color(entry: &str) -> (res: Hue)
    ensures
        res == entry_hue(entry@),
{
    let e = chars_of(entry);
    if contains_chars(&e, "ERROR") || contains_chars(&e, "FAIL") || contains_chars(&e, "PANIC") {
        Hue::Red
    } else if contains_chars(&e, "WARN") || contains_chars(&e, "WARNING") || contains_chars(
        &e,
        "MODE",
    ) {
        Hue::Yellow
    } else if contains_chars(&e, "FINISHED") || contains_chars(&e, "SUCCESS") || contains_chars(
        &e,
        "OK",
    ) {
        Hue::Green
    } else {
        Hue::Cyan
    }
}

/// The header spinner glyph at `tick`.
pub fn spinner_glyph(tick: usize) -> (c: char)
    ensures
        c == spinner_frame(tick as int % 6),
{
    let i = tick % 6;
    if i == 0 {
        '◢'
    } else if i == 1 {
        '◣'
    } else if i == 2 {
        '◤'
    } else if i == 3 {
        '◥'
    } else if i == 4 {
        '◆'
    } else {
        '◇'
    }
}

/// The header glitch bar at `tick`: its frame repeated twelve times.
pub fn glitch_bar(tick: usize) -> (res: String)
    ensures
        res@ == repeated(glitch_frame(tick as int % 6), 12),
{
    let i = tick % 6;
    let (a, b, c) = if i == 0 {
        ('░', '▒', '▓')
    } else if i == 1 {
        ('▒', '▓', '█')
    } else if i == 2 {
        ('▓', '█', '▓')
    } else if i == 3 {
        ('█', '▓', '▒')
    } else if i == 4 {
        ('▓', '▒', '░')
    } else {
        ('▒', '░', '▒')
    };
    let ghost frame = glitch_frame(i as int);
    assert(frame =~= seq![a, b, c]);
    let mut out = String::new();
    let mut k: usize = 0;
    while k < 12
        invariant
            k <= 12,
            frame == seq![a, b, c],
            out@ == repeated(frame, k as nat),
        decreases 12 - k,
    {
        push_char(&mut out, a);
        push_char(&mut out, b);
        push_char(&mut out, c);
        assert(out@ =~= repeated(frame, k as nat) + frame);
        k = k + 1;
    }
    out
}

/// The newest `FEED_ROWS` feed entries, newest first.
pub fn recent_events(state: &AppState) -> (res: Vec<String>)
    ensures
        res@.len() == (if state@.events.len() < FEED_ROWS {
            state@.events.len()
        } else {
            FEED_ROWS as nat
        }),
        forall|i: int|
            0 <= i < res@.len() ==> #[trigger] res@[i]@ == state@.events[state@.events.len() - 1 - i],
{
    let n = state.events.len();
    let count = if n < FEED_ROWS {
        n
    } else {
        FEED_ROWS
    };
    let mut out: Vec<String> = Vec::new();
    let mut i: usize = 0;
    while i < count
        invariant
            n == state.events@.len(),
            count <= n,
            count <= FEED_ROWS,
            i <= count,
            out@.len() == i,
            forall|j: int| 0 <= j < i ==> #[trigger] out@[j]@ == state@.events[n - 1 - j],
        decreases count - i,
    {
        let e = state.events[n - 1 - i].clone();
        out.push(e);
        i = i + 1;
    }
    out
}

/// The render matrix for a panel of `width` x `height` cells, borders included:
/// the matrix fills the inside of the border for the state's tick and metrics.
pub fn render_matrix(state: &AppState, width: u16, height: u16) -> (res: String)
    ensures
        res@ == matrix_text(
            state.tick,
            (if width >= 2 { width - 2 } else { 0 }) as usize,
            (if height >= 2 { height - 2 } else { 0 }) as usize,
            state.energy,
            state.anomaly,
            state.sync_rate,
        ),
{
    let w = width.saturating_sub(2) as usize;
    let h = height.saturating_sub(2) as usize;
    generate_matrix(state.tick, w, h, state.energy, state.anomaly, state.sync_rate)
}

} // verus!
