//! The adaptive render matrix: a field of glyphs whose waves, scanlines,
//! growth and fractures follow the tick and the metrics.
use vstd::prelude::*;
use crate::text::push_char;

verus! {

/// The calm glyphs, by index `0..6`.
pub open spec fn calm_glyph(i: int) -> char {
    if i == 0 {
        '0'
    } else if i == 1 {
        '1'
    } else if i == 2 {
        '.'
    } else if i == 3 {
        '+'
    } else if i == 4 {
        '░'
    } else {
        '▒'
    }
}

/// The hot glyphs, by index `0..8`.
pub open spec fn hot_glyph(i: int) -> char {
    if i == 0 {
        '#'
    } else if i == 1 {
        '@'
    } else if i == 2 {
        '*'
    } else if i == 3 {
        '▓'
    } else if i == 4 {
        '█'
    } else if i == 5 {
        'x'
    } else if i == 6 {
        '%'
    } else {
        '&'
    }
}

/// Growth density from energy: `min(energy / 6 + 2, 20)`.
pub open spec fn density_of(energy: u16) -> int {
    if energy / 6 + 2 < 20 {
        energy / 6 + 2
    } else {
        20
    }
}

/// Chaos from anomaly: `min(anomaly / 8 + 1, 15)`.
pub open spec fn chaos_of(anomaly: u16) -> int {
    if anomaly / 8 + 1 < 15 {
        anomaly / 8 + 1
    } else {
        15
    }
}

/// Coherence from sync: `min(sync / 10 + 3, 14)`.
pub open spec fn coherence_of(sync: u16) -> int {
    if sync / 10 + 3 < 14 {
        sync / 10 + 3
    } else {
        14
    }
}

/// The glyph at column `x`, row `y`: a hot fracture glyph when the fracture
/// lattice hits and anomaly is above 40, else a wave block, a scanline block, a
/// hot growth glyph, or a calm glyph, in that order of precedence.
pub open spec fn cell_glyph(tick: int, x: int, y: int, energy: u16, anomaly: u16, sync: u16) -> char {
    let density = density_of(energy);
    let chaos = chaos_of(anomaly);
    let coherence = coherence_of(sync);
    let wave = (x + tick / 2) % (24 - density) == 0;
    let scanline = (y + tick / 3) % (18 - chaos) == 0;
    let growth = (x * y + tick + coherence) % 17 < density;
    let fracture = (x + y * 2 + tick) % (22 - chaos) == 0;
    if fracture && anomaly > 40 {
        hot_glyph((x * 7 + y * 13 + tick) % 8)
    } else if wave {
        '█'
    } else if scanline {
        '▓'
    } else if growth {
        hot_glyph((x * 3 + y * 5 + tick) % 8)
    } else {
        calm_glyph((x * 5 + y * 11 + tick) % 6)
    }
}

/// Row `y` of a matrix `w` glyphs wide.
pub open spec fn matrix_row(tick: int, w: int, y: int, energy: u16, anomaly: u16, sync: u16) -> Seq<
    char,
> {
    Seq::new(w as nat, |x: int| cell_glyph(tick, x, y, energy, anomaly, sync))
}

/// The first `k` rows, separated by newlines.
pub open spec fn matrix_rows(tick: int, w: int, k: int, energy: u16, anomaly: u16, sync: u16) -> Seq<
    char,
>
    decreases k,
{
    if k <= 0 {
        Seq::empty()
    } else if k == 1 {
        matrix_row(tick, w, 0, energy, anomaly, sync)
    } else {
        matrix_rows(tick, w, k - 1, energy, anomaly, sync) + seq!['\n'] + matrix_row(
            tick,
            w,
            k - 1,
            energy,
            anomaly,
            sync,
        )
    }
}

/// The number of columns for a requested width: at least 8.
pub open spec fn columns(width: usize) -> int {
    if width < 8 {
        8
    } else {
        width as int
    }
}

/// The number of rows for a requested height: at least 4.
pub open spec fn rows(height: usize) -> int {
    if height < 4 {
        4
    } else {
        height as int
    }
}

/// The matrix text: `rows(height)` rows of `columns(width)` glyphs.
pub open spec fn matrix_text(
    tick: usize,
    width: usize,
    height: usize,
    energy: u16,
    anomaly: u16,
    sync: u16,
) -> Seq<char> {
    matrix_rows(tick as int, columns(width), rows(height), energy, anomaly, sync)
}

fn calm_glyph_at(i: u128) -> (c: char)
    requires
        i < 6,
    ensures
        c == calm_glyph(i as int),
{
    if i == 0 {
        '0'
    } else if i == 1 {
        '1'
    } else if i == 2 {
        '.'
    } else if i == 3 {
        '+'
    } else if i == 4 {
        '░'
    } else {
        '▒'
    }
}

fn hot_glyph_at(i: u128) -> (c: char)
    requires
        i < 8,
    ensures
        c == hot_glyph(i as int),
{
    if i == 0 {
        '#'
    } else if i == 1 {
        '@'
    } else if i == 2 {
        '*'
    } else if i == 3 {
        '▓'
    } else if i == 4 {
        '█'
    } else if i == 5 {
        'x'
    } else if i == 6 {
        '%'
    } else {
        '&'
    }
}

/// The glyph at column `x`, row `y`.
fn matrix_cell(tick: usize, x: usize, y: usize, energy: u16, anomaly: u16, sync: u16) -> (c: char)
    ensures
        c == cell_glyph(tick as int, x as int, y as int, energy, anomaly, sync),
{
    let d0 = (energy / 6 + 2) as u128;
    let density: u128 = if d0 < 20 {
        d0
    } else {
        20
    };
    let c0 = (anomaly / 8 + 1) as u128;
    let chaos: u128 = if c0 < 15 {
        c0
    } else {
        15
    };
    let h0 = (sync / 10 + 3) as u128;
    let coherence: u128 = if h0 < 14 {
        h0
    } else {
        14
    };
    let t = tick as u128;
    let xx = x as u128;
    let yy = y as u128;
    assert(xx * yy <= 0xFFFF_FFFF_FFFF_FFFF * 0xFFFF_FFFF_FFFF_FFFF) by (nonlinear_arith)
        requires
            xx <= 0xFFFF_FFFF_FFFF_FFFF,
            yy <= 0xFFFF_FFFF_FFFF_FFFF,
    ;
    let wave = (xx + t / 2) % (24 - density) == 0;
    let scanline = (yy + t / 3) % (18 - chaos) == 0;
    let growth = (xx * yy + t + coherence) % 17 < density;
    let fracture = (xx + yy * 2 + t) % (22 - chaos) == 0;
    if fracture && anomaly > 40 {
        hot_glyph_at((xx * 7 + yy * 13 + t) % 8)
    } else if wave {
        '█'
    } else if scanline {
        '▓'
    } else if growth {
        hot_glyph_at((xx * 3 + yy * 5 + t) % 8)
    } else {
        calm_glyph_at((xx * 5 + yy * 11 + t) % 6)
    }
}

/// The render matrix for `tick`, at least 8 glyphs wide and 4 rows high, rows
/// separated by newlines; the glyphs follow energy, anomaly and sync.
pub fn generate_matrix(
    tick: usize,
    width: usize,
    height: usize,
    energy: u16,
    anomaly: u16,
    sync_rate: u16,
) -> (res: String)
    ensures
        res@ == matrix_text(tick, width, height, energy, anomaly, sync_rate),
{
    let w = if width < 8 {
        8
    } else {
        width
    };
    let h = if height < 4 {
        4
    } else {
        height
    };
    let mut out = String::new();
    let mut y: usize = 0;
    while y < h
        invariant
            y <= h,
            out@ == matrix_rows(tick as int, w as int, y as int, energy, anomaly, sync_rate),
        decreases h - y,
    {
        if y > 0 {
            push_char(&mut out, '\n');
        }
        let ghost before = out@;
        let mut x: usize = 0;
        while x < w
            invariant
                x <= w,
                out@ == before + matrix_row(tick as int, x as int, y as int, energy, anomaly, sync_rate),
            decreases w - x,
        {
            let c = matrix_cell(tick, x, y, energy, anomaly, sync_rate);
            push_char(&mut out, c);
            proof {
                assert(matrix_row(tick as int, x + 1, y as int, energy, anomaly, sync_rate) =~= matrix_row(
                    tick as int,
                    x as int,
                    y as int,
                    energy,
                    anomaly,
                    sync_rate,
                ).push(c));
                assert(out@ =~= before + matrix_row(tick as int, x + 1, y as int, energy, anomaly, sync_rate));
            }
            x = x + 1;
        }
        proof {
            if y == 0 {
                assert(out@ =~= matrix_rows(tick as int, w as int, 1, energy, anomaly, sync_rate));
            } else {
                assert(out@ =~= matrix_rows(tick as int, w as int, y + 1, energy, anomaly, sync_rate));
            }
        }
        y = y + 1;
    }
    out
}

} // verus!
