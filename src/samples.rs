//! Reinterpretation of raw little-endian PCM bytes as signed 16-bit samples.

use vstd::prelude::*;

verus! {

/// Number of bytes that make up one sample.
pub const BYTES_PER_SAMPLE: usize = 2;

/// The sample that the byte pair `lo`, `hi` encodes (little-endian, two's complement).
pub open spec fn le_sample(lo: u8, hi: u8) -> int {
    let u = lo as int + 256 * hi as int;
    if u >= 32768 {
        u - 65536
    } else {
        u
    }
}

/// The low byte of the little-endian encoding of `s`.
pub open spec fn low_byte(s: i16) -> u8 {
    ((s as int + 65536) % 65536 % 256) as u8
}

/// The high byte of the little-endian encoding of `s`.
pub open spec fn high_byte(s: i16) -> u8 {
    ((s as int + 65536) % 65536 / 256) as u8
}

/// The samples that an even-length byte sequence encodes, in order.
pub open spec fn decoded(b: Seq<u8>) -> Seq<i16>
    recommends
        b.len() % 2 == 0,
{
    Seq::new(b.len() / 2, |i: int| le_sample(b[2 * i], b[2 * i + 1]) as i16)
}

/// The little-endian byte encoding of a sample sequence.
pub open spec fn encoded(s: Seq<i16>) -> Seq<u8> {
    Seq::new(2 * s.len(), |j: int| if j % 2 == 0 { low_byte(s[j / 2]) } else { high_byte(s[j / 2]) })
}

/// Why a byte buffer could not be read as samples.
#[derive(Debug, Clone, Copy, PartialEq, Eq)]
pub enum SampleError {
    /// The buffer holds an odd number of bytes.
    InvalidBufferLength,
}

/// Decodes one sample from its two little-endian bytes.
pub fn sample_from_le(lo: u8, hi: u8) -> (r: i16)
    ensures
        r as int == le_sample(lo, hi),
{
    let u: u32 = lo as u32 + 256 * hi as u32;
    if u >= 32768 {
        (u as i32 - 65536) as i16
    } else {
        u as i16
    }
}

/// Reads a byte buffer as signed 16-bit little-endian samples. An odd
/// length is rejected as a whole: no byte is dropped or padded.
pub fn decode(bytes: &[u8]) -> (r: Result<Vec<i16>, SampleError>)
    ensures
        bytes@.len() % 2 == 0 <==> r is Ok,
        r matches Ok(s) ==> s@ == decoded(bytes@),
        r matches Err(e) ==> e == SampleError::InvalidBufferLength,
{
    if bytes.len() % BYTES_PER_SAMPLE != 0 {
        return Err(SampleError::InvalidBufferLength);
    }
    let len: usize = bytes.len();
    let n: usize = len / BYTES_PER_SAMPLE;
    assert(bytes@.len() == 2 * n);
    let mut out: Vec<i16> = Vec::with_capacity(n);
    let mut i: usize = 0;
    while i < n
        invariant
            bytes@.len() == 2 * n,
            len == bytes@.len(),
            i <= n,
            out@.len() == i,
            forall|k: int| 0 <= k < i ==> out@[k] == decoded(bytes@)[k],
        decreases n - i,
    {
        let j: usize = i + i;
        assert(j + 1 < bytes@.len());
        let s = sample_from_le(bytes[j], bytes[j + 1]);
        out.push(s);
        i += 1;
    }
    assert(out@ =~= decoded(bytes@));
    Ok(out)
}

/// Round trip: decoding an even-length buffer and encoding the samples
/// again gives back the same bytes, one sample for every two bytes.
pub proof fn lemma_decode_round_trip(b: Seq<u8>)
    requires
        b.len() % 2 == 0,
    ensures
        decoded(b).len() == b.len() / 2,
        encoded(decoded(b)) == b,
{
    let s = decoded(b);
    assert forall|j: int| 0 <= j < b.len() implies #[trigger] encoded(s)[j] == b[j] by {
        let i = j / 2;
        assert(0 <= i < s.len());
        lemma_byte_pair(b[2 * i], b[2 * i + 1]);
        if j % 2 == 0 {
            assert(j == 2 * i);
        } else {
            assert(j == 2 * i + 1);
        }
    }
    assert(encoded(s) =~= b);
}

/// Decoding even-length chunks one after another gives the samples of
/// decoding them joined, in the same order.
pub proof fn lemma_decode_chunks(a: Seq<u8>, b: Seq<u8>)
    requires
        a.len() % 2 == 0,
        b.len() % 2 == 0,
    ensures
        decoded(a + b) == decoded(a) + decoded(b),
{
    let ab = a + b;
    assert forall|i: int| 0 <= i < decoded(ab).len() implies #[trigger] decoded(ab)[i] == (
    decoded(a) + decoded(b))[i] by {
        if i < a.len() / 2 {
            assert(ab[2 * i] == a[2 * i]);
            assert(ab[2 * i + 1] == a[2 * i + 1]);
        } else {
            let k = i - a.len() / 2;
            assert(ab[2 * i] == b[2 * k]);
            assert(ab[2 * i + 1] == b[2 * k + 1]);
        }
    }
    assert(decoded(ab) =~= decoded(a) + decoded(b));
}

/// Encoding a decoded byte pair gives back the pair.
proof fn lemma_byte_pair(lo: u8, hi: u8)
    ensures
        low_byte(le_sample(lo, hi) as i16) == lo,
        high_byte(le_sample(lo, hi) as i16) == hi,
{
    let u = lo as int + 256 * hi as int;
    let v = le_sample(lo, hi);
    assert(-32768 <= v < 32768);
    assert((v + 65536) % 65536 == u) by (nonlinear_arith)
        requires
            0 <= lo < 256,
            0 <= hi < 256,
            u == lo + 256 * hi,
            v == (if u >= 32768 { u - 65536 } else { u }),
    ;
    assert(u % 256 == lo) by (nonlinear_arith)
        requires
            0 <= lo < 256,
            0 <= hi < 256,
            u == lo + 256 * hi,
    ;
    assert(u / 256 == hi) by (nonlinear_arith)
        requires
            0 <= lo < 256,
            0 <= hi < 256,
            u == lo + 256 * hi,
    ;
}

} // verus!
