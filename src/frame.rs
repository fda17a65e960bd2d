use vstd::prelude::*;

verus! {

/// Bytes of the latency header that opens every frame.
pub const HEADER_BYTES: usize = 4;

/// Bytes of one point: three 32-bit coordinates.
pub const POINT_BYTES: usize = 12;

/// Length of a frame that carries `count` points.
pub open spec fn spec_frame_len(count: nat) -> nat {
    HEADER_BYTES as nat + count * POINT_BYTES as nat
}

/// The frame for a latency header and the first `count` points of `points`.
pub open spec fn spec_frame(latency: Seq<u8>, points: Seq<u8>, count: nat) -> Seq<u8> {
    latency + points.subrange(0, (count * POINT_BYTES as nat) as int)
}

/// Length in bytes of a frame that carries `count` points.
pub fn frame_len(count: u32) -> (r: u64)
    ensures
        r as nat == spec_frame_len(count as nat),
{
    assert(count as u64 * 12 <= 12 * 0xffff_ffffu64) by (nonlinear_arith);
    HEADER_BYTES as u64 + (count as u64) * (POINT_BYTES as u64)
}

/// Packages a frame: the four latency bytes, then the byte image of the first
/// `count` points of the output buffer, in point order.
pub fn package_frame(latency: [u8; 4], points: &[u8], count: u32) -> (r: Vec<u8>)
    requires
        count as nat * POINT_BYTES as nat <= points@.len(),
    ensures
        r@ == spec_frame(latency@, points@, count as nat),
        r@.len() == spec_frame_len(count as nat),
{
    let available: usize = points.len();
    assert(count as nat * POINT_BYTES as nat <= available);
    let n: usize = (count as usize) * POINT_BYTES;
    let mut r: Vec<u8> = Vec::with_capacity(n);
    let mut i: usize = 0;
    while i < HEADER_BYTES
        invariant
            i <= HEADER_BYTES,
            r@ == latency@.subrange(0, i as int),
        decreases HEADER_BYTES - i,
    {
        r.push(latency[i]);
        i = i + 1;
    }
    assert(r@ == latency@);
    let mut j: usize = 0;
    while j < n
        invariant
            n == count as nat * POINT_BYTES as nat,
            n <= points@.len(),
            j <= n,
            r@ == latency@ + points@.subrange(0, j as int),
        decreases n - j,
    {
        r.push(points[j]);
        assert(points@.subrange(0, j + 1) == points@.subrange(0, j as int).push(points@[j as int]));
        j = j + 1;
    }
    r
}

/// Every frame carries exactly the header and three coordinates per point.
pub proof fn lemma_frame_len(latency: Seq<u8>, points: Seq<u8>, count: nat)
    requires
        latency.len() == HEADER_BYTES,
        count * POINT_BYTES as nat <= points.len(),
    ensures
        spec_frame(latency, points, count).len() == spec_frame_len(count),
        spec_frame_len(count) == 4 + count * 3 * 4,
{
    assert(count * 3 * 4 == count * 12) by (nonlinear_arith);
}

} // verus!
