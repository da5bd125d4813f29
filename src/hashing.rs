//! Commitment hashing for trade batches. A batch commitment is the SHA-256
//! digest of a domain-separated preimage, so that identical trade data yields
//! different commitments across batches and across deployments.

use vstd::prelude::*;
use crate::state::Address;

verus! {

/// The SHA-256 digest of a byte string.
pub uninterp spec fn sha256_of(data: Seq<u8>) -> Seq<u8>;

/// Relies on `sha2::Sha256::digest`: the SHA-256 digest of `data`, which
/// depends on the bytes alone.
#[verifier::external_body]
fn sha256(data: &[u8]) -> (r: [u8; 32])
    ensures
        r@ == sha256_of(data@),
{
    <sha2::Sha256 as sha2::Digest>::digest(data).into()
}

/// The domain prefix that opens every batch-commitment preimage.
pub open spec fn batch_domain_prefix() -> Seq<u8> {
    seq![
        0x31u8, 0x30u8, 0x32u8, 0x34u8, 0x5fu8, 0x4cu8, 0x45u8, 0x44u8, 0x47u8, 0x45u8,
        0x52u8, 0x5fu8, 0x42u8, 0x41u8, 0x54u8, 0x43u8, 0x48u8, 0x5fu8, 0x56u8, 0x31u8,
    ]
}

/// The eight little-endian bytes of `x`.
pub open spec fn le_bytes_u64(x: u64) -> Seq<u8> {
    seq![
        (x & 0xff) as u8, ((x >> 8u64) & 0xff) as u8, ((x >> 16u64) & 0xff) as u8,
        ((x >> 24u64) & 0xff) as u8, ((x >> 32u64) & 0xff) as u8, ((x >> 40u64) & 0xff) as u8,
        ((x >> 48u64) & 0xff) as u8, ((x >> 56u64) & 0xff) as u8,
    ]
}

/// The preimage of a batch commitment:
/// `prefix || program identity || batch id (little endian) || payload`.
pub open spec fn batch_preimage(program: Seq<u8>, batch_id: u64, data: Seq<u8>) -> Seq<u8> {
    batch_domain_prefix() + program + le_bytes_u64(batch_id) + data
}

/// The commitment of `data` for batch `batch_id` of deployment `program`.
pub open spec fn batch_commitment(program: Seq<u8>, batch_id: u64, data: Seq<u8>) -> Seq<u8> {
    sha256_of(batch_preimage(program, batch_id, data))
}

/// The eight little-endian bytes determine the integer.
proof fn lemma_le_bytes_u64_injective(x: u64, y: u64)
    requires
        le_bytes_u64(x) == le_bytes_u64(y),
    ensures
        x == y,
{
    assert(le_bytes_u64(x)[0] == le_bytes_u64(y)[0]);
    assert(le_bytes_u64(x)[1] == le_bytes_u64(y)[1]);
    assert(le_bytes_u64(x)[2] == le_bytes_u64(y)[2]);
    assert(le_bytes_u64(x)[3] == le_bytes_u64(y)[3]);
    assert(le_bytes_u64(x)[4] == le_bytes_u64(y)[4]);
    assert(le_bytes_u64(x)[5] == le_bytes_u64(y)[5]);
    assert(le_bytes_u64(x)[6] == le_bytes_u64(y)[6]);
    assert(le_bytes_u64(x)[7] == le_bytes_u64(y)[7]);
    assert(x == y) by (bit_vector)
        requires
            (x & 0xff) as u8 == (y & 0xff) as u8,
            ((x >> 8u64) & 0xff) as u8 == ((y >> 8u64) & 0xff) as u8,
            ((x >> 16u64) & 0xff) as u8 == ((y >> 16u64) & 0xff) as u8,
            ((x >> 24u64) & 0xff) as u8 == ((y >> 24u64) & 0xff) as u8,
            ((x >> 32u64) & 0xff) as u8 == ((y >> 32u64) & 0xff) as u8,
            ((x >> 40u64) & 0xff) as u8 == ((y >> 40u64) & 0xff) as u8,
            ((x >> 48u64) & 0xff) as u8 == ((y >> 48u64) & 0xff) as u8,
            ((x >> 56u64) & 0xff) as u8 == ((y >> 56u64) & 0xff) as u8,
    ;
}

/// Domain separation of batch commitments: two commitment preimages are
/// equal only when the program identity, the batch id and the payload are
/// all equal. A different batch id or a different deployment therefore
/// hashes a different preimage for the same payload.
pub proof fn lemma_batch_preimage_separates(
    program1: Seq<u8>,
    batch_id1: u64,
    data1: Seq<u8>,
    program2: Seq<u8>,
    batch_id2: u64,
    data2: Seq<u8>,
)
    requires
        program1.len() == 32,
        program2.len() == 32,
        batch_preimage(program1, batch_id1, data1) == batch_preimage(program2, batch_id2, data2),
    ensures
        program1 == program2,
        batch_id1 == batch_id2,
        data1 == data2,
{
    let a = batch_preimage(program1, batch_id1, data1);
    let b = batch_preimage(program2, batch_id2, data2);
    assert(a.len() == 60 + data1.len());
    assert(b.len() == 60 + data2.len());
    assert(a.subrange(20, 52) =~= program1);
    assert(b.subrange(20, 52) =~= program2);
    assert(a.subrange(52, 60) =~= le_bytes_u64(batch_id1));
    assert(b.subrange(52, 60) =~= le_bytes_u64(batch_id2));
    assert(a.subrange(60, a.len() as int) =~= data1);
    assert(b.subrange(60, b.len() as int) =~= data2);
    lemma_le_bytes_u64_injective(batch_id1, batch_id2);
}

/// Plain SHA-256 of `data`, for simple integrity checks.
pub fn compute_hash(data: &[u8]) -> (r: [u8; 32])
    ensures
        r@ == sha256_of(data@),
{
    sha256(data)
}

/// Appends the little-endian bytes of `x` to `out`.
pub(crate) fn push_le_u64(out: &mut Vec<u8>, x: u64)
    ensures
        final(out)@ == old(out)@ + le_bytes_u64(x),
{
    out.push((x & 0xff) as u8);
    out.push(((x >> 8u64) & 0xff) as u8);
    out.push(((x >> 16u64) & 0xff) as u8);
    out.push(((x >> 24u64) & 0xff) as u8);
    out.push(((x >> 32u64) & 0xff) as u8);
    out.push(((x >> 40u64) & 0xff) as u8);
    out.push(((x >> 48u64) & 0xff) as u8);
    out.push(((x >> 56u64) & 0xff) as u8);
    assert(final(out)@ =~= old(out)@ + le_bytes_u64(x));
}

/// Appends every byte of `src` to `out`.
fn push_all(out: &mut Vec<u8>, src: &[u8])
    ensures
        final(out)@ == old(out)@ + src@,
{
    let ghost start = out@;
    let mut i: usize = 0;
    while i < src.len()
        invariant
            i <= src@.len(),
            out@ == start + src@.subrange(0, i as int),
        decreases src@.len() - i,
    {
        out.push(src[i]);
        i = i + 1;
        assert(out@ =~= start + src@.subrange(0, i as int));
    }
    assert(src@.subrange(0, src@.len() as int) =~= src@);
}

/// Builds the domain-separated preimage of a batch commitment.
fn build_batch_preimage(program_id: &Address, batch_id: u64, data: &[u8]) -> (r: Vec<u8>)
    ensures
        r@ == batch_preimage(program_id.bytes@, batch_id, data@),
{
    let mut out: Vec<u8> = vec![
        0x31u8, 0x30u8, 0x32u8, 0x34u8, 0x5fu8, 0x4cu8, 0x45u8, 0x44u8, 0x47u8, 0x45u8,
        0x52u8, 0x5fu8, 0x42u8, 0x41u8, 0x54u8, 0x43u8, 0x48u8, 0x5fu8, 0x56u8, 0x31u8,
    ];
    assert(out@ =~= batch_domain_prefix());
    push_all(&mut out, program_id.bytes.as_slice());
    push_le_u64(&mut out, batch_id);
    push_all(&mut out, data);
    out
}

/// Commitment hash of a batch payload:
/// `SHA256(prefix || program_id || batch_id (LE) || data)`.
pub fn compute_batch_hash(program_id: &Address, batch_id: u64, data: &[u8]) -> (r: [u8; 32])
    ensures
        r@ == batch_commitment(program_id.bytes@, batch_id, data@),
{
    let preimage = build_batch_preimage(program_id, batch_id, data);
    sha256(preimage.as_slice())
}

/// Compares two digests without an early exit, so the time taken does not
/// depend on where they first differ.
pub fn constant_time_compare(a: &[u8; 32], b: &[u8; 32]) -> (r: bool)
    ensures
        r == (a@ == b@),
{
    let mut diff: u8 = 0;
    let mut i: usize = 0;
    while i < 32
        invariant
            i <= 32,
            a@.len() == 32,
            b@.len() == 32,
            (diff == 0) <==> (forall|j: int| 0 <= j < i ==> a@[j] == b@[j]),
        decreases 32 - i,
    {
        let x = a[i];
        let y = b[i];
        let d = x ^ y;
        assert((d == 0) <==> (x == y)) by (bit_vector)
            requires
                d == x ^ y,
        ;
        assert(((diff | d) == 0) <==> (diff == 0 && d == 0)) by (bit_vector);
        diff = diff | d;
        i = i + 1;
    }
    if diff == 0 {
        assert(a@ =~= b@);
    }
    diff == 0
}

/// Checks `expected` against the commitment of `data` for `batch_id` of
/// deployment `program_id`, in constant time.
pub fn verify_batch_hash(program_id: &Address, batch_id: u64, data: &[u8], expected: &[u8; 32]) -> (r: bool)
    ensures
        r == (batch_commitment(program_id.bytes@, batch_id, data@) == expected@),
{
    let computed = compute_batch_hash(program_id, batch_id, data);
    constant_time_compare(&computed, expected)
}

} // verus!
