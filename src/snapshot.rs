use vstd::arithmetic::div_mod::lemma_fundamental_div_mod;
use vstd::prelude::*;

verus! {

/// The four little-endian bytes of `n`.
pub open spec fn le_bytes(n: u32) -> Seq<u8> {
    let a = n / 256;
    let b = a / 256;
    seq![(n % 256) as u8, (a % 256) as u8, (b % 256) as u8, (b / 256) as u8]
}

/// The number that four little-endian bytes encode.
pub open spec fn le_value(b: Seq<u8>) -> int {
    b[0] + 256 * b[1] + 65536 * b[2] + 16777216 * b[3]
}

/// A stored snapshot: the length of the uncompressed snapshot, then the
/// compressed bytes.
pub open spec fn framed(raw_len: u32, payload: Seq<u8>) -> Seq<u8> {
    le_bytes(raw_len) + payload
}

/// The length and the payload of a stored snapshot; `None` when it is too
/// short to hold a length.
pub open spec fn unframed(blob: Seq<u8>) -> Option<(u32, Seq<u8>)> {
    if blob.len() < 4 {
        None
    } else {
        Some((le_value(blob.subrange(0, 4)) as u32, blob.subrange(4, blob.len() as int)))
    }
}

/// Frames the compressed snapshot `compressed` with the length of the
/// uncompressed one. `None` when that length does not fit in four bytes.
pub fn frame_snapshot(raw_len: usize, compressed: &Vec<u8>) -> (r: Option<Vec<u8>>)
    ensures
        raw_len > u32::MAX ==> r is None,
        raw_len <= u32::MAX ==> (r matches Some(v) && v@ == framed(raw_len as u32, compressed@)),
{
    if raw_len > u32::MAX as usize {
        return None;
    }
    let n = raw_len as u32;
    let a = n / 256;
    let b = a / 256;
    let mut out: Vec<u8> = vec![(n % 256) as u8, (a % 256) as u8, (b % 256) as u8, (b / 256) as u8];
    let mut i: usize = 0;
    while i < compressed.len()
        invariant
            i <= compressed.len(),
            out@ == le_bytes(n) + compressed@.subrange(0, i as int),
        decreases compressed.len() - i,
    {
        out.push(compressed[i]);
        i = i + 1;
        assert(compressed@.subrange(0, i as int) =~= compressed@.subrange(0, i - 1) + seq![
            compressed@[i - 1],
        ]);
    }
    assert(compressed@.subrange(0, compressed@.len() as int) =~= compressed@);
    Some(out)
}

/// Splits a stored snapshot into the uncompressed length and the payload.
pub fn unframe_snapshot(blob: &Vec<u8>) -> (r: Option<(u32, Vec<u8>)>)
    ensures
        match r {
            Some((n, p)) => unframed(blob@) == Some((n, p@)),
            None => unframed(blob@) is None,
        },
{
    if blob.len() < 4 {
        return None;
    }
    let n: u32 = blob[0] as u32 + 256 * (blob[1] as u32) + 65536 * (blob[2] as u32) + 16777216 * (
    blob[3] as u32);
    let mut payload: Vec<u8> = Vec::new();
    let mut i: usize = 4;
    while i < blob.len()
        invariant
            4 <= i <= blob.len(),
            payload@ == blob@.subrange(4, i as int),
        decreases blob.len() - i,
    {
        payload.push(blob[i]);
        i = i + 1;
        assert(blob@.subrange(4, i as int) =~= blob@.subrange(4, i - 1) + seq![blob@[i - 1]]);
    }
    Some((n, payload))
}

/// Reading back a framed snapshot gives the length and the payload that
/// were framed.
pub proof fn lemma_frame_round_trip(raw_len: u32, payload: Seq<u8>)
    ensures
        unframed(framed(raw_len, payload)) == Some((raw_len, payload)),
{
    let n = raw_len as int;
    let a = n / 256;
    let b = a / 256;
    lemma_fundamental_div_mod(n, 256);
    lemma_fundamental_div_mod(a, 256);
    lemma_fundamental_div_mod(b, 256);
    assert(b / 256 < 256) by {
        assert(n < 4294967296);
    }
    let f = framed(raw_len, payload);
    assert(f.subrange(0, 4) =~= le_bytes(raw_len));
    assert(f.subrange(4, f.len() as int) =~= payload);
    assert(le_value(le_bytes(raw_len)) == n);
}

} // verus!
