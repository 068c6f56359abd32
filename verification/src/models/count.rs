//! A counter of ticks that starts over at 128.

use vstd::prelude::*;

verus! {

/// The remainder of `a` by `b` that machine integers compute: it has the
/// sign of `a`. (In contracts `%` is the remainder that is never negative.)
pub open spec fn remainder(a: int, b: int) -> int {
    if a >= 0 {
        a % b
    } else {
        -((-a) % b)
    }
}

/// The machine remainder is zero exactly for the multiples of `b`.
pub proof fn lemma_remainder_zero(a: int, b: int)
    requires
        b != 0,
    ensures
        remainder(a, b) == 0 <==> a % b == 0,
{
    lemma_multiple_iff(a, b);
    lemma_multiple_iff(-a, b);
    if a % b == 0 {
        let k = choose|k: int| a == #[trigger] (k * b);
        assert(-a == (-k) * b) by (nonlinear_arith)
            requires
                a == k * b,
        ;
    }
    if (-a) % b == 0 {
        let k = choose|k: int| -a == #[trigger] (k * b);
        assert(a == (-k) * b) by (nonlinear_arith)
            requires
                -a == k * b,
        ;
    }
}

/// The remainder that is never negative is zero exactly for the multiples
/// of `b`, whatever the sign of `b`.
pub proof fn lemma_multiple_iff(a: int, b: int)
    requires
        b != 0,
    ensures
        a % b == 0 <==> exists|k: int| a == #[trigger] (k * b),
{
    let q = a / b;
    let r = a % b;
    assert(a == q * b + r && 0 <= r && (b > 0 ==> r < b) && (b < 0 ==> r < -b))
        by (nonlinear_arith)
        requires
            b != 0,
            q == a / b,
            r == a % b,
    ;
    if exists|k: int| a == #[trigger] (k * b) {
        let k = choose|k: int| a == #[trigger] (k * b);
        let d = k - q;
        assert(d * b == r) by (nonlinear_arith)
            requires
                a == k * b,
                a == q * b + r,
                d == k - q,
        ;
        assert(d == 0) by (nonlinear_arith)
            requires
                d * b == r,
                0 <= r,
                b != 0,
                b > 0 ==> r < b,
                b < 0 ==> r < -b,
        ;
    }
}

/// A count of ticks.
#[derive(Clone, Copy, Debug, PartialEq, Eq, Structural)]
pub struct Count(i32);

impl View for Count {
    type V = int;

    closed spec fn view(&self) -> int {
        self.0 as int
    }
}

impl Count {
    pub fn new(value: i32) -> (count: Self)
        ensures
            count@ == value,
    {
        Count(value)
    }

    /// Counts one tick more; after 127 comes 0.
    pub fn add(&mut self)
        requires
            old(self)@ < i32::MAX,
        ensures
            final(self)@ == remainder(old(self)@ + 1, 128),
            0 <= old(self)@ < 127 ==> final(self)@ == old(self)@ + 1,
            old(self)@ == 127 ==> final(self)@ == 0,
    {
        self.0 = (self.0 + 1) % 128;
    }

    /// Whether the count is a multiple of `tempo`.
    pub fn beat(&self, tempo: i32) -> (on_beat: bool)
        requires
            tempo != 0,
            !(self@ == i32::MIN && tempo == -1),
        ensures
            on_beat == (remainder(self@, tempo as int) == 0),
            on_beat == (self@ % (tempo as int) == 0),
    {
        proof {
            lemma_remainder_zero(self@, tempo as int);
        }
        self.0 % tempo == 0
    }
}

} // verus!
