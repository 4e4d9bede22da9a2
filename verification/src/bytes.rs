//! Little-endian integer encoding, as used by instruction data and
//! account data.
use vstd::prelude::*;

verus! {

pub open spec fn pow256(n: nat) -> nat
    decreases n,
{
    if n == 0 {
        1
    } else {
        256 * pow256((n - 1) as nat)
    }
}

/// The unsigned integer whose little-endian bytes are `s`.
pub open spec fn le_value(s: Seq<u8>) -> nat
    decreases s.len(),
{
    if s.len() == 0 {
        0
    } else {
        s[0] as nat + 256 * le_value(s.drop_first())
    }
}

/// The `width` little-endian bytes of `v` (the low `width` bytes).
pub open spec fn le_bytes(v: nat, width: nat) -> Seq<u8>
    decreases width,
{
    if width == 0 {
        Seq::empty()
    } else {
        seq![(v % 256) as u8] + le_bytes(v / 256, (width - 1) as nat)
    }
}

pub proof fn lemma_pow256_values()
    ensures
        pow256(1) == 0x100,
        pow256(2) == 0x1_0000,
        pow256(4) == 0x1_0000_0000,
        pow256(8) == 0x1_0000_0000_0000_0000,
{
    reveal_with_fuel(pow256, 9);
}

pub proof fn lemma_le_value_bound(s: Seq<u8>)
    ensures
        le_value(s) < pow256(s.len()),
    decreases s.len(),
{
    if s.len() > 0 {
        lemma_le_value_bound(s.drop_first());
    }
}

pub proof fn lemma_le_bytes_len(v: nat, width: nat)
    ensures
        le_bytes(v, width).len() == width,
    decreases width,
{
    if width > 0 {
        lemma_le_bytes_len(v / 256, (width - 1) as nat);
    }
}

/// Decoding the encoding of `v` gives `v` back, when `v` fits the width.
pub proof fn lemma_le_value_of_bytes(v: nat, width: nat)
    requires
        v < pow256(width),
    ensures
        le_value(le_bytes(v, width)) == v,
    decreases width,
{
    if width > 0 {
        let rest = le_bytes(v / 256, (width - 1) as nat);
        assert(le_bytes(v, width).drop_first() =~= rest);
        assert(v / 256 < pow256((width - 1) as nat)) by {
            assert(v < 256 * pow256((width - 1) as nat));
        }
        lemma_le_value_of_bytes(v / 256, (width - 1) as nat);
    }
}

/// Encoding the value of a byte string gives the byte string back.
pub proof fn lemma_le_bytes_of_value(s: Seq<u8>)
    ensures
        le_bytes(le_value(s), s.len()) == s,
    decreases s.len(),
{
    if s.len() > 0 {
        let t = s.drop_first();
        lemma_le_bytes_of_value(t);
        let v = le_value(s);
        assert(v % 256 == s[0] as nat);
        assert(v / 256 == le_value(t));
        assert(le_bytes(v, s.len()) =~= seq![s[0]] + t);
        assert(seq![s[0]] + t =~= s);
    }
}

/// Reads the little-endian unsigned integer of `width` bytes starting at
/// `start`.
pub fn read_le(data: &[u8], start: usize, width: usize) -> (r: u64)
    requires
        width <= 8,
        start + width <= data@.len(),
    ensures
        r == le_value(data@.subrange(start as int, start + width)),
        r < pow256(width as nat),
{
    let len = data.len();
    assert(start + width <= len);
    let end = start + width;
    let mut acc: u64 = 0;
    let mut i: usize = end;
    proof {
        lemma_pow256_values();
        assert(data@.subrange(end as int, end as int) =~= Seq::<u8>::empty());
    }
    while i > start
        invariant
            start <= i <= end,
            end == start + width,
            width <= 8,
            end <= data@.len(),
            acc == le_value(data@.subrange(i as int, end as int)),
            acc < pow256((end - i) as nat),
            pow256(8) == 0x1_0000_0000_0000_0000,
        decreases i - start,
    {
        proof {
            lemma_pow256_monotone((end - i) as nat, 7);
        }
        i = i - 1;
        let ghost tail = data@.subrange(i + 1, end as int);
        let ghost whole = data@.subrange(i as int, end as int);
        proof {
            assert(whole.drop_first() =~= tail);
        }
        acc = (data[i] as u64) + 256 * acc;
    }
    proof {
        lemma_le_value_bound(data@.subrange(start as int, end as int));
    }
    acc
}

pub proof fn lemma_pow256_monotone(a: nat, b: nat)
    requires
        a <= b,
    ensures
        pow256(a) <= pow256(b),
    decreases b,
{
    if a < b {
        lemma_pow256_monotone(a, (b - 1) as nat);
    }
}

/// Appends the `width` little-endian bytes of `v` to `out`.
pub fn write_le(out: &mut Vec<u8>, v: u64, width: usize)
    requires
        width <= 8,
    ensures
        final(out)@ == old(out)@ + le_bytes(v as nat, width as nat),
{
    let ghost start = old(out)@;
    let mut rest: u64 = v;
    let mut i: usize = 0;
    proof {
        assert(start + le_bytes(v as nat, width as nat) =~= out@ + le_bytes(rest as nat, (width - i) as nat));
    }
    while i < width
        invariant
            i <= width,
            start + le_bytes(v as nat, width as nat) == out@ + le_bytes(rest as nat, (width - i) as nat),
        decreases width - i,
    {
        let b = (rest % 256) as u8;
        proof {
            let tail = le_bytes(rest as nat, (width - i) as nat);
            assert(tail == seq![b] + le_bytes((rest / 256) as nat, (width - i - 1) as nat));
            assert(out@ + tail =~= out@.push(b) + le_bytes((rest / 256) as nat, (width - i - 1) as nat));
        }
        out.push(b);
        rest = rest / 256;
        i = i + 1;
    }
    assert(le_bytes(rest as nat, 0) =~= Seq::<u8>::empty());
    assert(out@ + Seq::<u8>::empty() =~= out@);
}

} // verus!
