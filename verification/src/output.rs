use vstd::prelude::*;

use crate::errors::VerifyError;

verus! {

/// The circuit's single public input, reconstructed from exactly 32
/// little-endian bytes: byte `i` contributes to limb `i / 8` at bit
/// offset `(i % 8) * 8`.  The limbs are handed verbatim to the field's
/// raw-limb constructor; any modular reduction is the engine's concern.
pub struct PublicOutput {
    pub limbs: [u64; 4],
}

/// A 64-bit limb assembled from eight bytes, little endian.
pub open spec fn le_limb8(b0: u8, b1: u8, b2: u8, b3: u8, b4: u8, b5: u8, b6: u8, b7: u8) -> u64 {
    (b0 as u64) | ((b1 as u64) << 8) | ((b2 as u64) << 16) | ((b3 as u64) << 24)
        | ((b4 as u64) << 32) | ((b5 as u64) << 40) | ((b6 as u64) << 48) | ((b7 as u64) << 56)
}

/// Limb `j` of the little-endian-limb interpretation of a 32-byte buffer.
pub open spec fn limb_of(bytes: Seq<u8>, j: int) -> u64
    recommends
        bytes.len() == 32,
        0 <= j < 4,
{
    le_limb8(
        bytes[8 * j],
        bytes[8 * j + 1],
        bytes[8 * j + 2],
        bytes[8 * j + 3],
        bytes[8 * j + 4],
        bytes[8 * j + 5],
        bytes[8 * j + 6],
        bytes[8 * j + 7],
    )
}

/// The little-endian-limb interpretation of a 32-byte buffer.
pub open spec fn limbs_of(bytes: Seq<u8>) -> Seq<u64>
    recommends
        bytes.len() == 32,
{
    Seq::new(4, |j: int| limb_of(bytes, j))
}

/// Byte `i` of the little-endian encoding of four limbs.
pub open spec fn byte_of(limbs: Seq<u64>, i: int) -> u8
    recommends
        limbs.len() == 4,
        0 <= i < 32,
{
    ((limbs[i / 8] >> (((i % 8) * 8) as u64)) & 0xff) as u8
}

/// The little-endian encoding of four limbs as 32 bytes.
pub open spec fn bytes_of(limbs: Seq<u64>) -> Seq<u8>
    recommends
        limbs.len() == 4,
{
    Seq::new(32, |i: int| byte_of(limbs, i))
}

/// Assembles the limb starting at byte offset `base`.
fn limb_from(bytes: &[u8], base: usize) -> (r: u64)
    requires
        base + 8 <= bytes@.len(),
    ensures
        r == le_limb8(
            bytes@[base as int],
            bytes@[base as int + 1],
            bytes@[base as int + 2],
            bytes@[base as int + 3],
            bytes@[base as int + 4],
            bytes@[base as int + 5],
            bytes@[base as int + 6],
            bytes@[base as int + 7],
        ),
{
    (bytes[base] as u64) | ((bytes[base + 1] as u64) << 8) | ((bytes[base + 2] as u64) << 16)
        | ((bytes[base + 3] as u64) << 24) | ((bytes[base + 4] as u64) << 32)
        | ((bytes[base + 5] as u64) << 40) | ((bytes[base + 6] as u64) << 48)
        | ((bytes[base + 7] as u64) << 56)
}

/// Turns the public-output buffer into the field element's four raw
/// limbs.  The buffer must hold exactly 32 bytes; any other length is a
/// hard error that reports the actual length, never a truncation or a
/// zero-padding.
pub fn decode_output(output_data: &[u8]) -> (r: Result<PublicOutput, VerifyError>)
    ensures
        match r {
            Ok(p) => output_data@.len() == 32 && p.limbs@ == limbs_of(output_data@),
            Err(e) => output_data@.len() != 32 && (e matches VerifyError::Length(n)
                && n == output_data@.len()),
        },
{
    if output_data.len() != 32 {
        return Err(VerifyError::Length(output_data.len()));
    }
    let limbs: [u64; 4] = [
        limb_from(output_data, 0),
        limb_from(output_data, 8),
        limb_from(output_data, 16),
        limb_from(output_data, 24),
    ];
    proof {
        assert(limbs@ =~= limbs_of(output_data@));
    }
    Ok(PublicOutput { limbs })
}

/// Writes the four limbs back out as their 32-byte little-endian encoding.
pub fn encode_output(p: &PublicOutput) -> (r: Vec<u8>)
    ensures
        r@ == bytes_of(p.limbs@),
{
    let mut v: Vec<u8> = Vec::new();
    let mut i: usize = 0;
    while i < 32
        invariant
            i <= 32,
            v@.len() == i,
            forall|m: int| 0 <= m < i ==> v@[m] == byte_of(p.limbs@, m),
        decreases 32 - i,
    {
        let limb: u64 = p.limbs[i / 8];
        let k: u64 = (i % 8) as u64;
        let b: u8 = extract_byte(limb, k);
        proof {
            assert(limb == p.limbs@[i as int / 8]);
            assert(k == (i as int % 8));
        }
        v.push(b);
        i = i + 1;
    }
    proof {
        assert(v@ =~= bytes_of(p.limbs@));
    }
    v
}

/// Extracts byte `k` of a limb, little endian.
fn extract_byte(limb: u64, k: u64) -> (r: u8)
    requires
        k < 8,
    ensures
        r == ((limb >> ((k * 8) as u64)) & 0xff) as u8,
{
    proof {
        assert((limb >> ((k * 8) as u64)) & 0xff < 256) by (bit_vector)
            requires
                k < 8,
        ;
    }
    ((limb >> (k * 8)) & 0xff) as u8
}

/// Extracting the bytes of an assembled limb gives back the bytes it
/// was assembled from.
proof fn lemma_limb_bytes(b0: u8, b1: u8, b2: u8, b3: u8, b4: u8, b5: u8, b6: u8, b7: u8)
    by (bit_vector)
    ensures
        ((le_limb8(b0, b1, b2, b3, b4, b5, b6, b7) >> 0u64) & 0xff) as u8 == b0,
        ((le_limb8(b0, b1, b2, b3, b4, b5, b6, b7) >> 8u64) & 0xff) as u8 == b1,
        ((le_limb8(b0, b1, b2, b3, b4, b5, b6, b7) >> 16u64) & 0xff) as u8 == b2,
        ((le_limb8(b0, b1, b2, b3, b4, b5, b6, b7) >> 24u64) & 0xff) as u8 == b3,
        ((le_limb8(b0, b1, b2, b3, b4, b5, b6, b7) >> 32u64) & 0xff) as u8 == b4,
        ((le_limb8(b0, b1, b2, b3, b4, b5, b6, b7) >> 40u64) & 0xff) as u8 == b5,
        ((le_limb8(b0, b1, b2, b3, b4, b5, b6, b7) >> 48u64) & 0xff) as u8 == b6,
        ((le_limb8(b0, b1, b2, b3, b4, b5, b6, b7) >> 56u64) & 0xff) as u8 == b7,
{
}

/// Reassembling a limb from its eight extracted bytes gives back the limb.
proof fn lemma_bytes_limb(x: u64)
    by (bit_vector)
    ensures
        le_limb8(
            ((x >> 0u64) & 0xff) as u8,
            ((x >> 8u64) & 0xff) as u8,
            ((x >> 16u64) & 0xff) as u8,
            ((x >> 24u64) & 0xff) as u8,
            ((x >> 32u64) & 0xff) as u8,
            ((x >> 40u64) & 0xff) as u8,
            ((x >> 48u64) & 0xff) as u8,
            ((x >> 56u64) & 0xff) as u8,
        ) == x,
{
}

/// The limb interpretation loses nothing: encoding the limbs decoded
/// from any 32-byte buffer reproduces that buffer exactly.
pub proof fn lemma_bytes_limbs_roundtrip(bytes: Seq<u8>)
    requires
        bytes.len() == 32,
    ensures
        bytes_of(limbs_of(bytes)) == bytes,
{
    assert forall|i: int| 0 <= i < 32 implies bytes_of(limbs_of(bytes))[i] == bytes[i] by {
        let j = i / 8;
        let k = i % 8;
        lemma_limb_bytes(
            bytes[8 * j],
            bytes[8 * j + 1],
            bytes[8 * j + 2],
            bytes[8 * j + 3],
            bytes[8 * j + 4],
            bytes[8 * j + 5],
            bytes[8 * j + 6],
            bytes[8 * j + 7],
        );
        assert(8 * j + k == i);
    }
    assert(bytes_of(limbs_of(bytes)) =~= bytes);
}

/// The limb interpretation covers everything: decoding the encoding of
/// any four limbs reproduces those limbs exactly.  Together with
/// `lemma_bytes_limbs_roundtrip` this makes the interpretation a
/// bijection between 32-byte buffers and limb quadruples.
pub proof fn lemma_limbs_bytes_roundtrip(limbs: Seq<u64>)
    requires
        limbs.len() == 4,
    ensures
        limbs_of(bytes_of(limbs)) == limbs,
{
    assert forall|j: int| 0 <= j < 4 implies limbs_of(bytes_of(limbs))[j] == limbs[j] by {
        let bs = bytes_of(limbs);
        assert(bs[8 * j] == byte_of(limbs, 8 * j));
        assert(bs[8 * j + 1] == byte_of(limbs, 8 * j + 1));
        assert(bs[8 * j + 2] == byte_of(limbs, 8 * j + 2));
        assert(bs[8 * j + 3] == byte_of(limbs, 8 * j + 3));
        assert(bs[8 * j + 4] == byte_of(limbs, 8 * j + 4));
        assert(bs[8 * j + 5] == byte_of(limbs, 8 * j + 5));
        assert(bs[8 * j + 6] == byte_of(limbs, 8 * j + 6));
        assert(bs[8 * j + 7] == byte_of(limbs, 8 * j + 7));
        lemma_bytes_limb(limbs[j]);
    }
    assert(limbs_of(bytes_of(limbs)) =~= limbs);
}

} // verus!
