use vstd::prelude::*;

verus! {

/// The top 64-bit word of the field's prime.
pub const PRIME_TOP_WORD: u64 = 0x0800000000000011;

/// The field's prime, 2^251 + 17 * 2^192 + 1.
pub open spec fn prime() -> int {
    PRIME_TOP_WORD as int * 0x1000000000000000000000000000000000000000000000000 + 1
}

pub open spec fn words_value(w0: u64, w1: u64, w2: u64, w3: u64) -> int {
    w0 as int + w1 as int * 0x10000000000000000 + w2 as int * 0x100000000000000000000000000000000
        + w3 as int * 0x1000000000000000000000000000000000000000000000000
}

/// A field element: a residue modulo the field's prime, held as four
/// little-endian 64-bit words. Each residue has exactly one representation.
#[derive(Clone, Copy, Debug, PartialEq, Eq, Structural, Hash)]
pub struct Felt {
    pub w0: u64,
    pub w1: u64,
    pub w2: u64,
    pub w3: u64,
}

/// The words are in canonical form exactly when their value is below the prime.
pub proof fn lemma_canonical_words(w0: u64, w1: u64, w2: u64, w3: u64)
    ensures
        (words_value(w0, w1, w2, w3) < prime()) <==> (w3 < PRIME_TOP_WORD || (w3
            == PRIME_TOP_WORD && w2 == 0 && w1 == 0 && w0 == 0)),
{
    let low = w0 as int + w1 as int * 0x10000000000000000 + w2 as int
        * 0x100000000000000000000000000000000;
    assert(0 <= low < 0x1000000000000000000000000000000000000000000000000) by (nonlinear_arith)
        requires
            low == w0 as int + w1 as int * 0x10000000000000000 + w2 as int
                * 0x100000000000000000000000000000000,
            w0 <= 0xffffffffffffffff,
            w1 <= 0xffffffffffffffff,
            w2 <= 0xffffffffffffffff,
    ;
    assert(low == 0 <==> (w2 == 0 && w1 == 0 && w0 == 0)) by (nonlinear_arith)
        requires
            low == w0 as int + w1 as int * 0x10000000000000000 + w2 as int
                * 0x100000000000000000000000000000000,
            w0 >= 0,
            w1 >= 0,
            w2 >= 0,
    ;
    let t = w3 as int;
    let k = PRIME_TOP_WORD as int;
    let b = 0x1000000000000000000000000000000000000000000000000int;
    assert(t < k ==> t * b + low < k * b + 1) by (nonlinear_arith)
        requires
            0 <= low < b,
            b > 0,
    ;
    assert(t > k ==> t * b + low >= k * b + 1) by (nonlinear_arith)
        requires
            0 <= low,
            b > 1,
    ;
}

impl Felt {
    /// The residue this element stands for.
    pub open spec fn value(&self) -> int {
        words_value(self.w0, self.w1, self.w2, self.w3)
    }

    /// Canonical form: the value is below the prime.
    pub open spec fn wf(&self) -> bool {
        self.value() < prime()
    }

    pub fn zero() -> (r: Felt)
        ensures
            r.wf(),
            r.value() == 0,
    {
        Felt { w0: 0, w1: 0, w2: 0, w3: 0 }
    }

    pub fn from_u64(v: u64) -> (r: Felt)
        ensures
            r.wf(),
            r.value() == v,
    {
        let r = Felt { w0: v, w1: 0, w2: 0, w3: 0 };
        proof {
            lemma_canonical_words(v, 0, 0, 0);
        }
        r
    }

    /// The element with the given little-endian words, if they are below the prime.
    pub fn from_words(w0: u64, w1: u64, w2: u64, w3: u64) -> (r: Option<Felt>)
        ensures
            r is Some <==> words_value(w0, w1, w2, w3) < prime(),
            r matches Some(f) ==> f.wf() && f == (Felt { w0, w1, w2, w3 }),
    {
        proof {
            lemma_canonical_words(w0, w1, w2, w3);
        }
        if w3 < PRIME_TOP_WORD || (w3 == PRIME_TOP_WORD && w2 == 0 && w1 == 0 && w0 == 0) {
            Some(Felt { w0, w1, w2, w3 })
        } else {
            None
        }
    }

    /// The value as a `usize`, where it fits.
    pub fn to_usize(&self) -> (r: Option<usize>)
        ensures
            r is Some <==> 0 <= self.value() <= usize::MAX,
            r matches Some(n) ==> n as int == self.value(),
    {
        proof {
            let v = self.value();
            let (a, b, c, d) = (self.w0 as int, self.w1 as int, self.w2 as int, self.w3 as int);
            assert(v >= a && (b > 0 || c > 0 || d > 0 ==> v >= 0x10000000000000000)) by (
            nonlinear_arith)
                requires
                    v == a + b * 0x10000000000000000 + c * 0x100000000000000000000000000000000
                        + d * 0x1000000000000000000000000000000000000000000000000,
                    a >= 0,
                    b >= 0,
                    c >= 0,
                    d >= 0,
            ;
        }
        if self.w1 == 0 && self.w2 == 0 && self.w3 == 0 && self.w0 <= usize::MAX as u64 {
            Some(self.w0 as usize)
        } else {
            None
        }
    }
}

} // verus!
