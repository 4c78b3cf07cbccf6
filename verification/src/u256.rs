//! 256-bit unsigned words: the width in which the chain hands out its
//! numbers, and the 32 big-endian bytes in which they travel.

use vstd::prelude::*;

verus! {

/// 2 to the power 128.
pub open spec fn two_pow_128() -> nat {
    0x1_0000_0000_0000_0000_0000_0000_0000_0000nat
}

/// 256 to the power `n`.
pub open spec fn pow256(n: nat) -> nat
    decreases n,
{
    if n == 0 {
        1
    } else {
        256 * pow256((n - 1) as nat)
    }
}

/// The number that a string of bytes spells, most significant byte first.
pub open spec fn be_value(bytes: Seq<u8>) -> nat
    decreases bytes.len(),
{
    if bytes.len() == 0 {
        0
    } else {
        be_value(bytes.drop_last()) * 256 + bytes.last() as nat
    }
}

/// Sixteen bytes span exactly the 128-bit range.
pub proof fn lemma_pow256_16()
    ensures
        pow256(16) == two_pow_128(),
{
    reveal_with_fuel(pow256, 17);
}

/// `n` bytes spell a number below `256^n`.
pub proof fn lemma_be_value_bound(bytes: Seq<u8>)
    ensures
        be_value(bytes) < pow256(bytes.len()),
    decreases bytes.len(),
{
    if bytes.len() > 0 {
        lemma_be_value_bound(bytes.drop_last());
    }
}

/// One byte spells its own value.
pub proof fn lemma_be_value_single(byte: u8)
    ensures
        be_value(seq![byte]) == byte as nat,
{
    let s = seq![byte];
    assert(be_value(s.drop_last()) == 0);
}

/// The number spelled by two strings put end to end.
pub proof fn lemma_be_value_concat(front: Seq<u8>, back: Seq<u8>)
    ensures
        be_value(front + back) == be_value(front) * pow256(back.len()) + be_value(back),
    decreases back.len(),
{
    if back.len() == 0 {
        assert(front + back =~= front);
        assert(pow256(back.len()) == 1);
    } else {
        let whole = front + back;
        assert(whole.drop_last() =~= front + back.drop_last());
        lemma_be_value_concat(front, back.drop_last());
        let f = be_value(front);
        let p = pow256(back.drop_last().len());
        let b = be_value(back.drop_last());
        assert((f * p + b) * 256 == f * (256 * p) + b * 256) by (nonlinear_arith);
    }
}

/// Two byte strings of one length that spell the same number are the same
/// string.
pub proof fn lemma_be_value_injective(a: Seq<u8>, b: Seq<u8>)
    requires
        a.len() == b.len(),
        be_value(a) == be_value(b),
    ensures
        a == b,
    decreases a.len(),
{
    if a.len() == 0 {
        assert(a =~= b);
    } else {
        lemma_be_value_injective(a.drop_last(), b.drop_last());
        assert(a =~= a.drop_last().push(a.last()));
        assert(b =~= b.drop_last().push(b.last()));
    }
}

/// A 256-bit unsigned integer in two 128-bit halves.
#[derive(Clone, Copy, Debug, PartialEq, Eq, Structural)]
pub struct U256 {
    /// Bits 128 to 255.
    pub high: u128,
    /// Bits 0 to 127.
    pub low: u128,
}

impl View for U256 {
    type V = nat;

    open spec fn view(&self) -> nat {
        self.high as nat * two_pow_128() + self.low as nat
    }
}

/// Different words stand for different numbers.
pub proof fn lemma_u256_view_injective(a: U256, b: U256)
    ensures
        (a@ == b@) <==> (a == b),
{
}

/// Reads the sixteen bytes from `start` on as one big-endian number.
fn fold_be(bytes: &[u8; 32], start: usize) -> (r: u128)
    requires
        start <= 16,
    ensures
        r as nat == be_value(bytes@.subrange(start as int, start + 16)),
{
    let mut acc: u128 = 0;
    let mut i: usize = 0;
    while i < 16
        invariant
            start <= 16,
            i <= 16,
            acc as nat == be_value(bytes@.subrange(start as int, start + i)),
        decreases 16 - i,
    {
        let ghost seen = bytes@.subrange(start as int, start + i);
        let ghost next = bytes@.subrange(start as int, start + i + 1);
        proof {
            lemma_be_value_bound(seen);
            lemma_be_value_bound(next);
            assert(next.drop_last() =~= seen);
            lemma_pow256_16();
            lemma_pow256_grows(next.len(), 16);
        }
        acc = acc * 256 + bytes[start + i] as u128;
        i = i + 1;
    }
    acc
}

/// `256^n` grows with `n`.
pub proof fn lemma_pow256_grows(n: nat, m: nat)
    requires
        n <= m,
    ensures
        pow256(n) <= pow256(m),
        pow256(n) >= 1,
    decreases m,
{
    if n < m {
        lemma_pow256_grows(n, (m - 1) as nat);
    } else if n > 0 {
        lemma_pow256_grows((n - 1) as nat, (m - 1) as nat);
    }
}

impl U256 {
    /// The word that stands for zero.
    pub fn zero() -> (r: Self)
        ensures
            r@ == 0,
            r == (U256 { high: 0, low: 0 }),
    {
        U256 { high: 0, low: 0 }
    }

    /// The word that stands for `value`.
    pub open spec fn spec_from_u128(value: u128) -> Self {
        U256 { high: 0, low: value }
    }

    /// Widens a 128-bit number.
    pub fn from_u128(value: u128) -> (r: Self)
        ensures
            r@ == value,
            r == Self::spec_from_u128(value),
    {
        U256 { high: 0, low: value }
    }

    /// The number as 128 bits, or `None` when it needs more: nothing is cut
    /// off.
    pub fn to_u128(&self) -> (r: Option<u128>)
        ensures
            r == (if self@ <= u128::MAX {
                Some(self@ as u128)
            } else {
                None
            }),
    {
        if self.high == 0 {
            Some(self.low)
        } else {
            None
        }
    }

    /// Reads a word from its 32 bytes, most significant first.
    pub fn from_bytes_be(bytes: &[u8; 32]) -> (r: Self)
        ensures
            r@ == be_value(bytes@),
    {
        let high: u128 = fold_be(bytes, 0);
        let low: u128 = fold_be(bytes, 16);
        proof {
            let front = bytes@.subrange(0, 16);
            let back = bytes@.subrange(16, 32);
            assert(front + back =~= bytes@);
            lemma_be_value_concat(front, back);
            lemma_pow256_16();
        }
        U256 { high, low }
    }

    /// Writes the word as 32 bytes, most significant first.
    pub fn to_bytes_be(&self) -> (r: [u8; 32])
        ensures
            be_value(r@) == self@,
    {
        let mut out: [u8; 32] = [0u8; 32];
        let mut rest: u128 = self.low;
        let mut i: usize = 0;
        proof {
            assert(pow256(0) == 1);
        }
        while i < 16
            invariant
                i <= 16,
                self.low as nat == rest as nat * pow256(i as nat) + be_value(
                    out@.subrange(32 - i, 32),
                ),
            decreases 16 - i,
        {
            let ghost before = out@.subrange(32 - i, 32);
            let digit: u8 = (rest % 256) as u8;
            out[31 - i] = digit;
            proof {
                let after = out@.subrange(31 - i, 32);
                assert(after =~= seq![digit] + before);
                lemma_be_value_concat(seq![digit], before);
                lemma_be_value_single(digit);
                let q = (rest / 256) as nat;
                let p = pow256(i as nat);
                assert((q * 256 + digit as nat) * p == q * (256 * p) + digit as nat * p)
                    by (nonlinear_arith);
            }
            rest = rest / 256;
            i = i + 1;
        }
        proof {
            lemma_pow256_16();
            lemma_be_value_bound(out@.subrange(16, 32));
            assert(rest == 0) by (nonlinear_arith)
                requires
                    self.low as nat == rest as nat * pow256(16) + be_value(out@.subrange(16, 32)),
                    self.low < pow256(16),
            ;
        }
        let ghost low_bytes = out@.subrange(16, 32);
        let mut rest: u128 = self.high;
        let mut i: usize = 0;
        proof {
            assert(pow256(0) == 1);
        }
        while i < 16
            invariant
                i <= 16,
                out@.subrange(16, 32) == low_bytes,
                self.high as nat == rest as nat * pow256(i as nat) + be_value(
                    out@.subrange(16 - i, 16),
                ),
            decreases 16 - i,
        {
            let ghost before = out@.subrange(16 - i, 16);
            let digit: u8 = (rest % 256) as u8;
            out[15 - i] = digit;
            proof {
                let after = out@.subrange(15 - i, 16);
                assert(after =~= seq![digit] + before);
                lemma_be_value_concat(seq![digit], before);
                lemma_be_value_single(digit);
                let q = (rest / 256) as nat;
                let p = pow256(i as nat);
                assert((q * 256 + digit as nat) * p == q * (256 * p) + digit as nat * p)
                    by (nonlinear_arith);
            }
            rest = rest / 256;
            i = i + 1;
        }
        proof {
            lemma_pow256_16();
            let front = out@.subrange(0, 16);
            let back = out@.subrange(16, 32);
            lemma_be_value_bound(front);
            assert(rest == 0) by (nonlinear_arith)
                requires
                    self.high as nat == rest as nat * pow256(16) + be_value(front),
                    self.high < pow256(16),
            ;
            assert(front + back =~= out@);
            lemma_be_value_concat(front, back);
        }
        out
    }
}

/// Writing a word out and reading it back gives the same word: whatever
/// bytes spell the number of `word`, a word read from them is `word`.
pub proof fn lemma_u256_bytes_round_trip(word: U256, bytes: Seq<u8>, back: U256)
    requires
        be_value(bytes) == word@,
        back@ == be_value(bytes),
    ensures
        back == word,
{
}

/// Reading 32 bytes and writing the word out gives the same bytes: two
/// strings of 32 bytes that spell the number of one word are equal.
pub proof fn lemma_u256_word_round_trip(bytes: Seq<u8>, word: U256, back: Seq<u8>)
    requires
        bytes.len() == 32,
        back.len() == 32,
        word@ == be_value(bytes),
        be_value(back) == word@,
    ensures
        back == bytes,
{
    lemma_be_value_injective(back, bytes);
}

} // verus!
