//! Unsigned LEB128: the variable-length integer encoding used throughout the
//! wasm binary format for counts, sizes, indices and limits.

use vstd::prelude::*;

verus! {

/// The unsigned LEB128 encoding of `v`: seven value bits per byte, least
/// significant group first, high bit set on every byte but the last.
pub open spec fn uleb(v: nat) -> Seq<u8>
    decreases v,
{
    if v < 128 {
        seq![v as u8]
    } else {
        seq![(v % 128 + 128) as u8] + uleb(v / 128)
    }
}

/// Decode one unsigned LEB128 integer from the front of `s`, returning the
/// value and the remaining bytes, or `None` if `s` ends inside the integer.
pub open spec fn uleb_decode(s: Seq<u8>) -> Option<(nat, Seq<u8>)>
    decreases s.len(),
{
    if s.len() == 0 {
        None
    } else if s[0] < 128 {
        Some((s[0] as nat, s.drop_first()))
    } else {
        match uleb_decode(s.drop_first()) {
            Some(p) => Some((((s[0] - 128) + 128 * p.0) as nat, p.1)),
            None => None,
        }
    }
}

/// Decoding undoes encoding: an encoded integer followed by any trailing
/// bytes decodes to that integer, leaving exactly the trailing bytes.
pub proof fn lemma_uleb_decode_encode(v: nat, rest: Seq<u8>)
    ensures
        uleb_decode(uleb(v) + rest) == Some((v, rest)),
    decreases v,
{
    if v < 128 {
        assert((seq![v as u8] + rest)[0] == v as u8);
        assert((seq![v as u8] + rest).drop_first() =~= rest);
    } else {
        let b: u8 = (v % 128 + 128) as u8;
        lemma_uleb_decode_encode(v / 128, rest);
        assert(uleb(v) + rest =~= seq![b] + (uleb(v / 128) + rest));
        assert((seq![b] + (uleb(v / 128) + rest)).drop_first() =~= uleb(v / 128) + rest);
        assert(v % 128 + 128 * (v / 128) == v) by {
            vstd::arithmetic::div_mod::lemma_fundamental_div_mod(v as int, 128);
        };
        assert((b - 128) + 128 * (v / 128) == v);
    }
}

/// Append the unsigned LEB128 encoding of `v` to `out`.
pub fn push_uleb(out: &mut Vec<u8>, v: u64)
    ensures
        final(out)@ == old(out)@ + uleb(v as nat),
{
    let ghost base: Seq<u8> = out@;
    let mut x: u64 = v;
    while x >= 128
        invariant
            out@ + uleb(x as nat) == base + uleb(v as nat),
        decreases x,
    {
        let ghost pre: Seq<u8> = out@;
        let b: u8 = (x % 128 + 128) as u8;
        proof {
            assert(uleb(x as nat) =~= seq![b] + uleb((x / 128) as nat));
        }
        out.push(b);
        x = x / 128;
        proof {
            assert(out@ + uleb(x as nat) =~= pre + (seq![b] + uleb(x as nat)));
        }
    }
    let ghost pre: Seq<u8> = out@;
    out.push(x as u8);
    proof {
        assert(uleb(x as nat) =~= seq![x as u8]);
        assert(out@ =~= pre + uleb(x as nat));
    }
}

/// Append a copy of `src` to `out`.
pub fn push_bytes(out: &mut Vec<u8>, src: &Vec<u8>)
    ensures
        final(out)@ == old(out)@ + src@,
{
    let ghost base: Seq<u8> = out@;
    let mut i: usize = 0;
    while i < src.len()
        invariant
            i <= src.len(),
            out@ == base + src@.take(i as int),
        decreases src.len() - i,
    {
        let ghost pre: Seq<u8> = out@;
        out.push(src[i]);
        proof {
            assert(src@.take(i as int + 1) =~= src@.take(i as int) + seq![src@[i as int]]);
            assert(out@ =~= base + src@.take(i as int + 1));
        }
        i = i + 1;
    }
    proof {
        assert(src@.take(src@.len() as int) =~= src@);
    }
}

} // verus!
