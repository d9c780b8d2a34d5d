use vstd::prelude::*;

use crate::bytes::{le_u64_at, lemma_u64_round_trip, with_u64_at, Bytes, U64_BYTES};

verus! {

/// `side` is the smallest side of a square holding `n` payload bytes and the trailer.
pub open spec fn is_canvas_side(n: nat, side: nat) -> bool {
    side > 0 && side * side >= n + 8 && (side - 1) * (side - 1) < n + 8
}

/// The canvas of side `side` for `payload`: the payload, zeros, and its length in the
/// last eight bytes.
pub open spec fn canvas_of(payload: Seq<u8>, side: nat) -> Seq<u8> {
    let total = side * side;
    with_u64_at(
        payload + Seq::new((total - payload.len()) as nat, |i: int| 0u8),
        total - 8,
        payload.len() as u64,
    )
}

/// Why a plane could not be unpacked.
#[derive(Debug, Clone, Copy, PartialEq, Eq, Structural)]
pub enum UnpackError {
    /// The plane is shorter than the trailer.
    TooSmall,
    /// The trailer declares more bytes than stand before it.
    CorruptTrailer,
}

/// What unpacking `plane` gives.
pub open spec fn unpack_result(plane: Seq<u8>) -> Result<Seq<u8>, UnpackError> {
    if plane.len() < 8 {
        Err(UnpackError::TooSmall)
    } else {
        let len = le_u64_at(plane, plane.len() - 8);
        if len > plane.len() - 8 {
            Err(UnpackError::CorruptTrailer)
        } else {
            Ok(plane.subrange(0, len as int))
        }
    }
}

/// A square grayscale plane, one byte per pixel, row by row.
pub struct Canvas {
    pub pixels: Vec<u8>,
    pub width: u32,
    pub height: u32,
}

impl Canvas {
    /// The plane is square and holds one byte per pixel.
    pub open spec fn wf(&self) -> bool {
        &&& self.width == self.height
        &&& self.pixels@.len() == self.width as int * self.height as int
    }
}

/// The side of the smallest square that holds `n` payload bytes and the trailer.
pub fn canvas_side(n: usize) -> (r: u32)
    requires
        n + 8 <= usize::MAX / 2,
    ensures
        is_canvas_side(n as nat, r as nat),
        r as int * r as int <= 2 * (n + 8),
{
    let m: u64 = n as u64 + 8;
    let mut lo: u64 = 0;
    let mut hi: u64 = 0xffff_ffff;
    assert(hi * hi >= m) by (nonlinear_arith)
        requires
            hi == 0xffff_ffffu64,
            m <= 0x7fff_ffff_ffff_ffffu64,
    ;
    while lo < hi
        invariant
            m == n + 8,
            lo <= hi <= 0xffff_ffffu64,
            hi * hi >= m,
            lo == 0 || (lo - 1) * (lo - 1) < m,
        decreases hi - lo,
    {
        let mid: u64 = lo + (hi - lo) / 2;
        assert(mid * mid <= 0xffff_ffffu64 * 0xffff_ffffu64) by (nonlinear_arith)
            requires
                mid <= 0xffff_ffffu64,
        ;
        if mid * mid >= m {
            hi = mid;
        } else {
            lo = mid + 1;
        }
    }
    proof {
        if lo == 0 {
            assert(hi * hi == 0) by (nonlinear_arith)
                requires
                    hi == 0,
            ;
        }
        lemma_side_bound(m as int, lo as int);
    }
    lo as u32
}

proof fn lemma_side_bound(m: int, side: int)
    requires
        m >= 8,
        side > 0,
        (side - 1) * (side - 1) < m,
    ensures
        side * side <= 2 * m,
{
    let k = side - 1;
    if k >= 3 {
        assert(k * k >= 2 * k + 1) by (nonlinear_arith)
            requires
                k >= 3,
        ;
    } else {
        assert(side * side <= 9) by (nonlinear_arith)
            requires
                0 < side <= 3,
        ;
    }
    assert(side * side == k * k + 2 * k + 1) by (nonlinear_arith)
        requires
            k == side - 1,
    ;
}

/// Packs `payload` into a square canvas: the payload, zero padding, and the payload's
/// length in the last eight bytes.
pub fn pack(payload: Vec<u8>) -> (r: Canvas)
    requires
        payload@.len() + 8 <= usize::MAX / 2,
    ensures
        r.wf(),
        is_canvas_side(payload@.len(), r.width as nat),
        r.pixels@ == canvas_of(payload@, r.width as nat),
        le_u64_at(r.pixels@, r.pixels@.len() - 8) == payload@.len(),
{
    let n = payload.len();
    let side = canvas_side(n);
    let total: usize = side as usize * side as usize;
    let mut data = payload;
    while data.len() < total
        invariant
            n == payload@.len(),
            n + 8 <= total,
            data@.len() <= total,
            data@ == payload@ + Seq::new((data@.len() - n) as nat, |i: int| 0u8),
        decreases total - data@.len(),
    {
        data.push(0);
        assert(data@ =~= payload@ + Seq::new((data@.len() - n) as nat, |i: int| 0u8));
    }
    let ghost padded = data@;
    data.write_u64(total - U64_BYTES, n as u64);
    proof {
        lemma_u64_round_trip(padded, total - 8, n as u64);
    }
    Canvas { pixels: data, width: side, height: side }
}

/// Recovers the payload from a plane: the bytes before the length in its trailer.
pub fn unpack(plane: &Vec<u8>) -> (r: Result<Vec<u8>, UnpackError>)
    ensures
        match r {
            Ok(p) => unpack_result(plane@) == Ok::<Seq<u8>, UnpackError>(p@),
            Err(e) => unpack_result(plane@) == Err::<Seq<u8>, UnpackError>(e),
        },
{
    if plane.len() < U64_BYTES {
        return Err(UnpackError::TooSmall);
    }
    let trailer = plane.len() - U64_BYTES;
    let len = plane.read_u64(trailer);
    if len > trailer as u64 {
        return Err(UnpackError::CorruptTrailer);
    }
    let mut out: Vec<u8> = Vec::new();
    let mut i: usize = 0;
    while i < len as usize
        invariant
            len <= trailer,
            trailer < plane@.len(),
            i <= len,
            out@ == plane@.subrange(0, i as int),
        decreases len - i,
    {
        out.push(plane[i]);
        i = i + 1;
        assert(out@ =~= plane@.subrange(0, i as int));
    }
    Ok(out)
}

/// Unpacking a packed payload gives the payload back.
pub proof fn lemma_pack_round_trip(payload: Seq<u8>, side: nat)
    requires
        payload.len() <= u64::MAX,
        is_canvas_side(payload.len(), side),
    ensures
        unpack_result(canvas_of(payload, side)) == Ok::<Seq<u8>, UnpackError>(payload),
{
    let total = side * side;
    let padded = payload + Seq::new((total - payload.len()) as nat, |i: int| 0u8);
    let c = canvas_of(payload, side);
    lemma_u64_round_trip(padded, total - 8, payload.len() as u64);
    assert(c.len() == total);
    assert(le_u64_at(c, c.len() - 8) == payload.len());
    assert(c.subrange(0, payload.len() as int) =~= payload);
}

/// A payload length has one canvas side.
pub proof fn lemma_canvas_side_unique(n: nat, a: nat, b: nat)
    requires
        is_canvas_side(n, a),
        is_canvas_side(n, b),
    ensures
        a == b,
{
    if a < b {
        assert(a * a <= (b - 1) * (b - 1)) by (nonlinear_arith)
            requires
                a <= b - 1,
        ;
    } else if b < a {
        assert(b * b <= (a - 1) * (a - 1)) by (nonlinear_arith)
            requires
                b <= a - 1,
        ;
    }
}

/// A trailer that declares more bytes than stand before it is rejected.
pub proof fn lemma_corrupt_trailer_rejected(plane: Seq<u8>, declared: u64)
    requires
        plane.len() >= 8,
        declared > plane.len() - 8,
    ensures
        unpack_result(with_u64_at(plane, plane.len() - 8, declared)) == Err::<
            Seq<u8>,
            UnpackError,
        >(UnpackError::CorruptTrailer),
{
    lemma_u64_round_trip(plane, plane.len() - 8, declared);
}

} // verus!
