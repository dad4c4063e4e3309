use vstd::prelude::*;

use crate::find_sequence;
use crate::marker::sof0_marker;
use crate::marker::sof0_marker_seq;
use crate::match_at;

verus! {

/// The value of a big-endian 16-bit field made of the bytes `hi` and `lo`.
pub open spec fn be16(hi: u8, lo: u8) -> u16 {
    ((hi as int) * 256 + (lo as int)) as u16
}

/// The big-endian 16-bit field stored at index `i` of `b`.
pub open spec fn be16_at(b: Seq<u8>, i: int) -> u16 {
    be16(b[i], b[i + 1])
}

/// The most significant byte of the big-endian encoding of `v`.
pub open spec fn be_hi(v: u16) -> u8 {
    ((v as int) / 256) as u8
}

/// The least significant byte of the big-endian encoding of `v`.
pub open spec fn be_lo(v: u16) -> u8 {
    ((v as int) % 256) as u8
}

/// The two big-endian bytes of `v` read back as the value `v` itself,
/// and the bytes of a stored field read back as the stored bytes.
pub proof fn lemma_be16_round_trip(v: u16, hi: u8, lo: u8)
    ensures
        be16(be_hi(v), be_lo(v)) == v,
        be_hi(be16(hi, lo)) == hi,
        be_lo(be16(hi, lo)) == lo,
{
}

/// Read the big-endian 16-bit field at index `i` of `buffer`.
pub fn read_be16(buffer: &[u8], i: usize) -> (r: u16)
    requires
        i + 2 <= buffer@.len(),
    ensures
        r == be16_at(buffer@, i as int),
{
    let hi = buffer[i];
    let lo = buffer[i + 1];
    (hi as u16) * 256 + (lo as u16)
}

/// Overwrite the two bytes at index `i` of `buffer` with the big-endian
/// encoding of `v`; every other byte is left unchanged.
pub fn write_be16(buffer: &mut Vec<u8>, i: usize, v: u16)
    requires
        i + 2 <= old(buffer)@.len(),
    ensures
        final(buffer)@ == old(buffer)@.update(i as int, be_hi(v)).update(i + 1, be_lo(v)),
{
    let blen: usize = buffer.len();
    let hi: u8 = (v / 256) as u8;
    let lo: u8 = (v % 256) as u8;
    proof {
        // the buffer length fits in usize, so `i + 1` does too
        assert(i + 1 < blen);
    }
    buffer[i] = hi;
    buffer[i + 1] = lo;
}

/// The height that the patch writes: the override when one is supplied,
/// otherwise the value already stored at offset 5 past the marker.
pub open spec fn resolved_height(b: Seq<u8>, p: int, height: Option<u16>) -> u16 {
    match height {
        Some(v) => v,
        None => be16_at(b, p + 5),
    }
}

/// The width that the patch writes: the override when one is supplied,
/// otherwise the value already stored at offset 7 past the marker.
pub open spec fn resolved_width(b: Seq<u8>, p: int, width: Option<u16>) -> u16 {
    match width {
        Some(v) => v,
        None => be16_at(b, p + 7),
    }
}

/// The buffer `b` after patching the height and width fields of the SOF0
/// segment whose marker starts at `p`.
pub open spec fn patched(b: Seq<u8>, p: int, height: Option<u16>, width: Option<u16>) -> Seq<u8> {
    let hv = resolved_height(b, p, height);
    let wv = resolved_width(b, p, width);
    b.update(p + 5, be_hi(hv)).update(p + 6, be_lo(hv)).update(p + 7, be_hi(wv)).update(
        p + 8,
        be_lo(wv),
    )
}

/// Patching with explicit height and width overrides writes exactly the
/// big-endian encodings of the overrides at offsets 5 and 7 past the marker,
/// leaves every byte outside those four positions unchanged, and reading the
/// two fields back yields exactly the supplied overrides.
pub proof fn lemma_patch_writes_overrides(b: Seq<u8>, p: int, h: u16, w: u16)
    requires
        0 <= p,
        p + 9 <= b.len(),
    ensures
        patched(b, p, Some(h), Some(w)).len() == b.len(),
        patched(b, p, Some(h), Some(w))[p + 5] == be_hi(h),
        patched(b, p, Some(h), Some(w))[p + 6] == be_lo(h),
        patched(b, p, Some(h), Some(w))[p + 7] == be_hi(w),
        patched(b, p, Some(h), Some(w))[p + 8] == be_lo(w),
        forall|k: int|
            0 <= k < b.len() && !(p + 5 <= k < p + 9) ==> patched(b, p, Some(h), Some(w))[k]
                == b[k],
        be16_at(patched(b, p, Some(h), Some(w)), p + 5) == h,
        be16_at(patched(b, p, Some(h), Some(w)), p + 7) == w,
{
    lemma_be16_round_trip(h, 0, 0);
    lemma_be16_round_trip(w, 0, 0);
}

/// Patching with no override writes back the values already stored, so the
/// buffer is preserved unchanged.
pub proof fn lemma_patch_no_override_identity(b: Seq<u8>, p: int)
    requires
        0 <= p,
        p + 9 <= b.len(),
    ensures
        patched(b, p, None, None) == b,
{
    lemma_be16_round_trip(0, b[p + 5], b[p + 6]);
    lemma_be16_round_trip(0, b[p + 7], b[p + 8]);
    assert(patched(b, p, None, None) =~= b);
}

/// How a JPEG buffer can fail to be patched.
#[derive(Debug, PartialEq, Eq, Structural, Clone, Copy)]
pub enum JpgError {
    /// The SOF0 marker pattern occurs nowhere in the buffer.
    MarkerNotFound,
    /// The marker was found, but the buffer ends before the height and
    /// width fields of its segment.
    Truncated,
}

/// Locate the first SOF0 marker in `buffer` and overwrite the height and
/// width fields of its segment, keeping a field's stored value where no
/// override is supplied. On failure the buffer is left unchanged.
pub fn modify_jpg(buffer: &mut Vec<u8>, height: Option<u16>, width: Option<u16>) -> (r: Result<
    usize,
    JpgError,
>)
    ensures
        match r {
            Ok(p) => {
                &&& p + 9 <= old(buffer)@.len()
                &&& match_at(old(buffer)@, sof0_marker_seq(), p as int)
                &&& forall|j: int| 0 <= j < p ==> !match_at(old(buffer)@, sof0_marker_seq(), j)
                &&& final(buffer)@ == patched(old(buffer)@, p as int, height, width)
            },
            Err(JpgError::MarkerNotFound) => {
                &&& forall|j: int|
                    0 <= j && j + 2 <= old(buffer)@.len() ==> !match_at(
                        old(buffer)@,
                        sof0_marker_seq(),
                        j,
                    )
                &&& final(buffer)@ == old(buffer)@
            },
            Err(JpgError::Truncated) => {
                &&& exists|p: int|
                    {
                        &&& 0 <= p
                        &&& p + 9 > old(buffer)@.len()
                        &&& match_at(old(buffer)@, sof0_marker_seq(), p)
                        &&& forall|j: int| 0 <= j < p ==> !match_at(old(buffer)@, sof0_marker_seq(), j)
                    }
                &&& final(buffer)@ == old(buffer)@
            },
        },
{
    let marker = sof0_marker();
    let position = match find_sequence(buffer.as_slice(), marker.as_slice()) {
        Some(position) => position,
        None => {
            return Err(JpgError::MarkerNotFound);
        },
    };
    let blen = buffer.len();
    if blen < 9 || position > blen - 9 {
        return Err(JpgError::Truncated);
    }
    let height_index = position + 5;  // marker + length + precision
    let width_index = height_index + 2;

    let modified_height = match height {
        Some(h) => h,
        None => read_be16(buffer.as_slice(), height_index),
    };
    let modified_width = match width {
        Some(w) => w,
        None => read_be16(buffer.as_slice(), width_index),
    };

    write_be16(buffer, height_index, modified_height);
    write_be16(buffer, width_index, modified_width);
    Ok(position)
}

} // verus!
