//! Building blocks of byte images: little-endian words, runs of zero bytes and
//! 16-byte slots laid end to end, with the loops that write and read them.
use vstd::prelude::*;
use vstd::arithmetic::div_mod::lemma_fundamental_div_mod_converse;

verus! {

/// `n` zero bytes.
pub open spec fn zeros(n: nat) -> Seq<u8> {
    Seq::new(n, |i: int| 0u8)
}

/// The 16-byte slots of `s` laid end to end: byte `i` is byte `i % 16` of slot `i / 16`.
pub open spec fn slots(s: Seq<Seq<u8>>) -> Seq<u8> {
    Seq::new(16 * s.len(), |i: int| s[i / 16][i % 16])
}

/// Byte `j` of slot `k` stands at `16 * k + j`.
pub proof fn lemma_slot_byte(s: Seq<Seq<u8>>, k: int, j: int)
    requires
        0 <= k < s.len(),
        0 <= j < 16,
    ensures
        16 * k + j < 16 * s.len(),
        slots(s)[16 * k + j] == s[k][j],
{
    lemma_fundamental_div_mod_converse(16 * k + j, 16, k, j);
}

/// Slot `k` is the 16 bytes from `16 * k`.
pub proof fn lemma_slot(s: Seq<Seq<u8>>, k: int)
    requires
        0 <= k < s.len(),
        s[k].len() == 16,
    ensures
        slots(s).subrange(16 * k, 16 * k + 16) == s[k],
{
    assert forall|j: int| 0 <= j < 16 implies slots(s).subrange(16 * k, 16 * k + 16)[j]
        == s[k][j] by {
        lemma_slot_byte(s, k, j);
    }
    assert(slots(s).subrange(16 * k, 16 * k + 16) =~= s[k]);
}

/// Slots read one by one from consecutive places of `b` lay out that stretch of `b`.
pub proof fn lemma_slots_of(s: Seq<Seq<u8>>, b: Seq<u8>, at: int)
    requires
        0 <= at,
        at + 16 * s.len() <= b.len(),
        forall|k: int| 0 <= k < s.len() ==> #[trigger] s[k] == b.subrange(at + 16 * k, at + 16 * k + 16),
    ensures
        slots(s) == b.subrange(at, at + 16 * s.len()),
{
    assert forall|i: int| 0 <= i < 16 * s.len() implies slots(s)[i] == b[at + i] by {
        let k = i / 16;
        let j = i % 16;
        assert(0 <= k < s.len() && 0 <= j < 16 && i == 16 * k + j);
        assert(s[k] == b.subrange(at + 16 * k, at + 16 * k + 16));
        assert(s[k][j] == b[at + i]);
    }
    assert(slots(s) =~= b.subrange(at, at + 16 * s.len()));
}

/// Appends the bytes of `b`.
pub fn push_bytes(out: &mut Vec<u8>, b: &[u8])
    ensures
        final(out)@ == old(out)@ + b@,
{
    let ghost start = out@;
    let mut i: usize = 0;
    while i < b.len()
        invariant
            i <= b@.len(),
            out@ == start + b@.subrange(0, i as int),
        decreases b@.len() - i,
    {
        out.push(b[i]);
        i += 1;
        assert(out@ =~= start + b@.subrange(0, i as int));
    }
    assert(b@.subrange(0, b@.len() as int) =~= b@);
}

/// The `N` bytes of `b` from `at`.
pub fn read_array<const N: usize>(b: &[u8], at: usize) -> (r: [u8; N])
    requires
        at + N <= b@.len(),
    ensures
        r@ == b@.subrange(at as int, at + N),
{
    let len = b.len();
    let mut r = [0u8; N];
    let mut j: usize = 0;
    while j < N
        invariant
            j <= N,
            at + N <= b@.len() == len,
            r@.len() == N,
            forall|i: int| 0 <= i < j ==> r@[i] == b@[at + i],
        decreases N - j,
    {
        r[j] = b[at + j];
        j += 1;
    }
    assert(r@ =~= b@.subrange(at as int, at + N));
    r
}

} // verus!
