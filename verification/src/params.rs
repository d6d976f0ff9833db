use vstd::prelude::*;

use crate::errors::VerifyError;

verus! {

/// Opaque handle on a decoded halo2 parameter set.  The underlying
/// type is generic over an outside trait, which keeps it from being
/// declared to the verifier directly; this handle hides it instead.
#[verifier::external_body]
pub(crate) struct ParamsHandle {
    pub(crate) inner: halo2_proofs::poly::commitment::Params<pasta_curves::vesta::Affine>,
}

/// Deserialized public setup parameters for the polynomial commitment
/// scheme.  Opaque beyond their role as a verifier input; the one fact
/// the adapter itself needs — the circuit-size exponent `k` read from
/// the first four bytes of the encoding — is kept beside the decoded
/// object so that later stages can check it against the verifying key.
pub struct CommitmentParams {
    pub(crate) handle: ParamsHandle,
    k: u32,
}

/// The 32-bit little-endian integer in the first four bytes of a buffer.
pub open spec fn le_u32(data: Seq<u8>) -> u32
    recommends
        data.len() >= 4,
{
    (data[0] as u32) | ((data[1] as u32) << 8) | ((data[2] as u32) << 16) | (
    (data[3] as u32) << 24)
}

/// Whether the commitment-parameter decoder accepts this buffer: a
/// fixed property of the bytes alone (the decoder reads a size prefix
/// and then a fixed number of curve points, each of which must be a
/// valid encoding).
pub uninterp spec fn params_wf(data: Seq<u8>) -> bool;

/// The parameter set a decodable buffer decodes to.  The decoder is
/// deterministic in the bytes alone, so the decoded value is a fixed
/// function of the buffer; meaningful only where `params_wf` holds.
pub uninterp spec fn params_value(data: Seq<u8>) -> CommitmentParams;

/// The size guard the adapter enforces before handing bytes to the
/// decoder: a size exponent of 64 or more cannot describe a real
/// parameter set and is refused up front.
pub open spec fn params_guard_ok(data: Seq<u8>) -> bool {
    data.len() >= 4 ==> le_u32(data) < 64
}

/// Exactly the buffers on which `read_params` succeeds.
pub open spec fn params_decodable(data: Seq<u8>) -> bool {
    params_guard_ok(data) && params_wf(data)
}

impl CommitmentParams {
    /// The circuit-size exponent this parameter set was built for.
    pub closed spec fn spec_k(&self) -> u32 {
        self.k
    }

    /// The circuit-size exponent this parameter set was built for.
    pub fn k(&self) -> (r: u32)
        ensures
            r == self.spec_k(),
    {
        self.k
    }
}

/// Relies on halo2_proofs::poly::commitment::Params::read: it decodes a
/// parameter set from a byte buffer, deterministically in the bytes
/// alone — a four-byte little-endian size exponent `k`, then the curve
/// points of a set of size `2^k`.  Buffers whose size field is 64 or
/// more are kept out by the caller: on those the decoder's size
/// computation itself would fail rather than return an error.
#[verifier::external_body]
fn params_read(data: &[u8]) -> (r: Result<CommitmentParams, String>)
    requires
        data@.len() >= 4 ==> le_u32(data@) < 64,
    ensures
        r is Ok <==> params_wf(data@),
        r matches Ok(p) ==> data@.len() >= 4 && p.spec_k() == le_u32(data@),
        r matches Ok(p) ==> p == params_value(data@),
{
    match halo2_proofs::poly::commitment::Params::<pasta_curves::vesta::Affine>::read(
        &mut &data[..],
    ) {
        Ok(p) => {
            let k = p.k();
            Ok(CommitmentParams { handle: ParamsHandle { inner: p }, k })
        },
        Err(e) => Err(e.to_string()),
    }
}

/// Decodes a commitment-parameter buffer, refusing up front the size
/// fields the decoder itself could not survive.  Succeeds exactly on
/// decodable buffers; every failure is a `Decode` error carrying the
/// underlying cause.
pub fn read_params(params_data: &[u8]) -> (r: Result<CommitmentParams, VerifyError>)
    ensures
        r is Ok <==> params_decodable(params_data@),
        r is Ok ==> params_data@.len() >= 4,
        r matches Ok(p) ==> p.spec_k() == le_u32(params_data@) && p.spec_k() < 64,
        r matches Ok(p) ==> p == params_value(params_data@),
        r matches Err(e) ==> e is Decode,
{
    if params_data.len() >= 4 {
        let k0: u32 = (params_data[0] as u32) | ((params_data[1] as u32) << 8) | ((
        params_data[2] as u32) << 16) | ((params_data[3] as u32) << 24);
        if k0 >= 64 {
            return Err(VerifyError::Decode("unsupported parameter size".to_owned()));
        }
    }
    match params_read(params_data) {
        Ok(p) => Ok(p),
        Err(s) => Err(VerifyError::Decode(s)),
    }
}

} // verus!
