//! Deterministic-but-unpredictable 32-byte seed derivation from an external
//! entropy buffer, a 32-byte requester identity, a timestamp, and a monotonic
//! index. A pure function of its inputs, so outcomes are replayable; short
//! entropy buffers are handled without ever reading out of bounds.

use vstd::prelude::*;

verus! {

/// The modulus from which the entropy window offset is drawn:
/// max(entropy_len - 32, 1).
pub open spec fn seed_window_base(entropy_len: int) -> int {
    if entropy_len <= 33 {
        1
    } else {
        entropy_len - 32
    }
}

/// Offset of the 32-byte window selected in the entropy buffer:
/// (index * 8) mod max(entropy_len - 32, 1).
pub open spec fn seed_offset(entropy_len: int, index: u64) -> int {
    (index * 8) % seed_window_base(entropy_len)
}

/// Byte `i` of the selected entropy window; zero past the end of the buffer.
pub open spec fn window_byte(entropy: Seq<u8>, index: u64, i: int) -> u8 {
    let off = seed_offset(entropy.len() as int, index);
    if off + i < entropy.len() {
        entropy[off + i]
    } else {
        0
    }
}

/// Byte `j` of the little-endian encoding of `x`.
pub open spec fn le_byte(x: u64, j: int) -> u8 {
    ((x >> ((8 * j) as u64)) & 0xff) as u8
}

/// Byte `i` of the generated seed: the entropy window byte XORed with the
/// requester identity byte, with the little-endian timestamp folded into
/// bytes 0-7 and the little-endian index folded into bytes 8-15.
pub open spec fn spec_seed_byte(
    entropy: Seq<u8>,
    requester: Seq<u8>,
    timestamp: i64,
    index: u64,
    i: int,
) -> u8 {
    let w = window_byte(entropy, index, i) ^ requester[i];
    let wt = if i < 8 {
        w ^ le_byte(timestamp as u64, i)
    } else {
        w
    };
    if 8 <= i < 16 {
        wt ^ le_byte(index, i - 8)
    } else {
        wt
    }
}

/// The whole 32-byte seed as a sequence.
pub open spec fn spec_seed(entropy: Seq<u8>, requester: Seq<u8>, timestamp: i64, index: u64) -> Seq<
    u8,
> {
    Seq::new(32, |i: int| spec_seed_byte(entropy, requester, timestamp, index, i))
}

/// Derive the 32-byte creation seed. Deterministic in all four inputs; never
/// panics on a short or empty entropy buffer (missing window bytes read as 0).
pub fn generate_seed(entropy: &Vec<u8>, requester: &Vec<u8>, timestamp: i64, index: u64) -> (r:
    Vec<u8>)
    requires
        requester@.len() == 32,
    ensures
        r@ == spec_seed(entropy@, requester@, timestamp, index),
{
    let m: usize = if entropy.len() <= 33 {
        1
    } else {
        entropy.len() - 32
    };
    let offset: usize = (((index as u128) * 8) % (m as u128)) as usize;
    proof {
        assert(m == seed_window_base(entropy@.len() as int));
        assert(offset == seed_offset(entropy@.len() as int, index));
        assert(offset < m);
    }
    let ts_bits: u64 = #[verifier::truncate] (timestamp as u64);
    let mut out: Vec<u8> = Vec::new();
    let mut i: usize = 0;
    while i < 32
        invariant
            i <= 32,
            out@.len() == i,
            requester@.len() == 32,
            ts_bits == timestamp as u64,
            m == seed_window_base(entropy@.len() as int),
            offset == seed_offset(entropy@.len() as int, index),
            offset < m,
            offset == 0 || offset + 32 <= entropy@.len(),
            entropy@.len() <= usize::MAX,
            forall|j: int|
                0 <= j < i ==> out@[j] == spec_seed_byte(entropy@, requester@, timestamp, index, j),
        decreases 32 - i,
    {
        let wb: u8 = if offset + i < entropy.len() {
            entropy[offset + i]
        } else {
            0
        };
        let mut b: u8 = wb ^ requester[i];
        if i < 8 {
            let shift: u64 = 8 * (i as u64);
            b = b ^ (#[verifier::truncate] (((ts_bits >> shift) & 0xff) as u8));
        }
        if 8 <= i && i < 16 {
            let shift: u64 = 8 * ((i - 8) as u64);
            b = b ^ (#[verifier::truncate] (((index >> shift) & 0xff) as u8));
        }
        out.push(b);
        i += 1;
    }
    proof {
        assert(out@ =~= spec_seed(entropy@, requester@, timestamp, index));
    }
    out
}

} // verus!
