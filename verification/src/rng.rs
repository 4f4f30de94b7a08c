//! A 64-bit linear congruential generator, the source of the synthetic stream's
//! pseudo-random values.
use vstd::prelude::*;

verus! {

/// The generator's multiplier.
pub const LCG_MUL: u64 = 6364136223846793005;

/// The generator's increment.
pub const LCG_INC: u64 = 1442695040888963407;

/// The successor of a generator state: `(s * LCG_MUL + LCG_INC) mod 2^64`.
pub open spec fn lcg_next(s: u64) -> u64 {
    ((s * LCG_MUL + LCG_INC) % 0x1_0000_0000_0000_0000) as u64
}

/// One draw from `[start, end)` on state `s`: the new state and the value. An
/// empty range gives `start` and leaves the state as it is.
pub open spec fn draw(s: u64, start: u64, end: u64) -> (u64, u64) {
    if end <= start {
        (s, start)
    } else {
        let n = lcg_next(s);
        (n, (start + n % ((end - start) as u64)) as u64)
    }
}

/// A pseudo-random generator seeded by a single `u64`.
pub struct SimpleRng {
    pub state: u64,
}

impl View for SimpleRng {
    type V = u64;

    open spec fn view(&self) -> u64 {
        self.state
    }
}

impl SimpleRng {
    /// A generator whose state is `seed`.
    pub fn new(seed: u64) -> (r: Self)
        ensures
            r@ == seed,
    {
        Self { state: seed }
    }

    /// Advances the state and returns the new state.
    pub fn next_u64(&mut self) -> (r: u64)
        ensures
            final(self)@ == lcg_next(old(self)@),
            r == final(self)@,
    {
        let s = self.state;
        let m = s.wrapping_mul(LCG_MUL);
        let n = m.wrapping_add(LCG_INC);
        proof {
            let big: int = 0x1_0000_0000_0000_0000;
            assert(m == (s * LCG_MUL) % big);
            vstd::arithmetic::div_mod::lemma_add_mod_noop(s * LCG_MUL, LCG_INC as int, big);
            assert(LCG_INC as int % big == LCG_INC);
            assert(m as int % big == m);
            assert(n == (s * LCG_MUL + LCG_INC) % big);
        }
        self.state = n;
        n
    }

    /// A value in `[start, end)`, or `start` when the range is empty.
    pub fn range(&mut self, start: u64, end: u64) -> (r: u64)
        ensures
            (final(self)@, r) == draw(old(self)@, start, end),
            end <= start ==> r == start,
            start < end ==> start <= r < end,
    {
        if end <= start {
            return start;
        }
        let n = self.next_u64();
        start + (n % (end - start))
    }
}

} // verus!
