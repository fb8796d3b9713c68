//! Region change-detection hashing: a cheap, collision-tolerant presence
//! signal computed by striding through the raw RGBA buffer and folding the
//! sampled 4-byte chunks into one 64-bit digest, seeded by the region
//! geometry and the downscale factor so distinct geometries never collide
//! trivially.

use vstd::prelude::*;

verus! {

/// The digest ahash's default-keyed hasher computes over a byte sequence.
pub uninterp spec fn ahash64_of(data: Seq<u8>) -> u64;

/// Relies on ahash::AHasher::default (fixed keys, so the digest depends on
/// the written bytes alone) with std's Hasher::write and Hasher::finish.
#[verifier::external_body]
fn ahash_bytes(data: &Vec<u8>) -> (r: u64)
    ensures
        r == ahash64_of(data@),
{
    let mut hasher = ahash::AHasher::default();
    std::hash::Hasher::write(&mut hasher, data.as_slice());
    std::hash::Hasher::finish(&hasher)
}

/// The little-endian bytes of a 32-bit value.
pub open spec fn le_bytes32(x: u32) -> Seq<u8> {
    seq![
        (x % 256) as u8,
        ((x / 256) % 256) as u8,
        ((x / 65536) % 256) as u8,
        ((x / 16777216) % 256) as u8,
    ]
}

fn push_le_bytes32(x: u32, out: &mut Vec<u8>)
    ensures
        final(out)@ == old(out)@ + le_bytes32(x),
{
    out.push((x % 256) as u8);
    out.push(((x / 256) % 256) as u8);
    out.push(((x / 65536) % 256) as u8);
    out.push(((x / 16777216) % 256) as u8);
    proof {
        assert(out@ =~= old(out)@ + le_bytes32(x));
    }
}

/// The seed bytes for a region hash: width, height and downscale factor.
pub open spec fn hash_seed(width: u32, height: u32, downscale: u32) -> Seq<u8> {
    le_bytes32(width) + le_bytes32(height) + le_bytes32(downscale)
}

/// The 4-byte chunks sampled from `buf` at every `step` bytes, starting at
/// offset `i`, concatenated.
pub open spec fn sampled_bytes(buf: Seq<u8>, step: int, i: int) -> Seq<u8>
    decreases buf.len() - i when step >= 4 && 0 <= i
{
    if i + 4 <= buf.len() {
        buf.subrange(i, i + 4) + (if i + step + 4 <= buf.len() {
            sampled_bytes(buf, step, i + step)
        } else {
            Seq::empty()
        })
    } else {
        Seq::empty()
    }
}

/// The byte stride for a downscale factor: one 4-byte pixel every
/// `max(downscale, 1)` pixels.
pub open spec fn stride_of(downscale: u32) -> int {
    (if downscale == 0 {
        1
    } else {
        downscale as int
    }) * 4
}

/// The change-detection hash of a region's pixel content: the sentinel 0 for
/// a zero-area region, else the digest of the seeded sample stream.
pub open spec fn spec_region_hash(
    width: u32,
    height: u32,
    downscale: u32,
    buf: Seq<u8>,
) -> u64 {
    if width == 0 || height == 0 {
        0
    } else {
        ahash64_of(hash_seed(width, height, downscale) + sampled_bytes(buf, stride_of(downscale), 0))
    }
}

/// Collect the sampled chunks of `buf` for the given stride.
fn collect_samples(buf: &Vec<u8>, downscale: u32) -> (r: Vec<u8>)
    ensures
        r@ == sampled_bytes(buf@, stride_of(downscale), 0),
{
    let d64: u64 = if downscale == 0 {
        1
    } else {
        downscale as u64
    };
    let step64: u64 = d64 * 4;
    let ghost step = stride_of(downscale);
    proof {
        assert(step64 == step);
    }
    let mut out: Vec<u8> = Vec::new();
    let len = buf.len();
    if len < 4 {
        return out;
    }
    let mut i: usize = 0;
    let mut more = true;
    while more
        invariant
            len == buf@.len(),
            4 <= len,
            step64 == step,
            4 <= step,
            i <= len,
            more ==> i + 4 <= len,
            !more ==> i + 4 > len || sampled_bytes(buf@, step, i as int) =~= Seq::<u8>::empty(),
            out@ + sampled_bytes(buf@, step, i as int) == sampled_bytes(buf@, step, 0),
        decreases len - i + (if more { 1int } else { 0int }),
    {
        let ghost i0 = i as int;
        let ghost out0 = out@;
        out.push(buf[i]);
        out.push(buf[i + 1]);
        out.push(buf[i + 2]);
        out.push(buf[i + 3]);
        proof {
            assert(out@ =~= out0 + buf@.subrange(i0, i0 + 4));
        }
        // Advance by the stride; stop when no whole chunk is left.
        if ((len - i) as u64) - 4 >= step64 {
            i = i + (step64 as usize);
            proof {
                assert(out@ + sampled_bytes(buf@, step, i as int) =~= sampled_bytes(
                    buf@,
                    step,
                    0,
                ));
            }
        } else {
            more = false;
            proof {
                assert(i0 + step + 4 > len);
                assert(sampled_bytes(buf@, step, i0 + step) =~= Seq::<u8>::empty());
                assert(out@ + sampled_bytes(buf@, step, i0 + step) =~= sampled_bytes(
                    buf@,
                    step,
                    0,
                ));
            }
            i = len;
            proof {
                assert(sampled_bytes(buf@, step, len as int) =~= Seq::<u8>::empty());
            }
        }
    }
    proof {
        assert(sampled_bytes(buf@, step, i as int) =~= Seq::<u8>::empty());
        assert(out@ =~= out@ + Seq::<u8>::empty());
    }
    out
}

/// The change-detection hash of a raw RGBA buffer for one region geometry:
/// a pure function of the pixel bytes and the downscale factor, seeded by
/// width, height and downscale. A zero-area region short-circuits to the
/// sentinel hash 0.
pub fn hash_region_bytes(width: u32, height: u32, downscale: u32, buf: &Vec<u8>) -> (r: u64)
    ensures
        r == spec_region_hash(width, height, downscale, buf@),
        width == 0 || height == 0 ==> r == 0,
{
    if width == 0 || height == 0 {
        return 0;
    }
    let mut data: Vec<u8> = Vec::new();
    push_le_bytes32(width, &mut data);
    push_le_bytes32(height, &mut data);
    push_le_bytes32(downscale, &mut data);
    let ghost seed = data@;
    proof {
        assert(seed =~= hash_seed(width, height, downscale));
    }
    let mut samples = collect_samples(buf, downscale);
    data.append(&mut samples);
    proof {
        assert(data@ =~= hash_seed(width, height, downscale) + sampled_bytes(
            buf@,
            stride_of(downscale),
            0,
        ));
    }
    ahash_bytes(&data)
}

/// The hash is deterministic: any two results computed from identical pixel
/// buffers, geometry and downscale factor are identical.
pub proof fn lemma_hash_region_deterministic(
    width: u32,
    height: u32,
    downscale: u32,
    buf: Seq<u8>,
    r1: u64,
    r2: u64,
)
    requires
        r1 == spec_region_hash(width, height, downscale, buf),
        r2 == spec_region_hash(width, height, downscale, buf),
    ensures
        r1 == r2,
{
}

} // verus!
