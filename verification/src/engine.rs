use vstd::prelude::*;

use crate::errors::VerifyError;
use crate::output::decode_output;
use crate::output::limbs_of;
use crate::output::PublicOutput;
use crate::params::params_decodable;
use crate::params::params_value;
use crate::params::read_params;
use crate::params::CommitmentParams;

verus! {

/// Opaque handle on a typed halo2 verifying key.  The underlying type
/// is generic over an outside trait, which keeps it from being declared
/// to the verifier directly; this handle hides it instead.  The field
/// is public so that a host, which generates the key against its
/// circuit description, can hand the typed key across the boundary.
#[verifier::external_body]
pub struct VkHandle {
    pub inner: halo2_proofs::plonk::VerifyingKey<pasta_curves::vesta::Affine>,
}

/// A verifying key bound to the fixed circuit shape at the time the key
/// was generated.  The key itself is opaque; the adapter keeps beside
/// it the one fact it must check before invoking the engine — the row
/// count `2^k` of the evaluation domain the key was generated for.
pub struct CircuitVk {
    handle: VkHandle,
    rows: u64,
}

impl CircuitVk {
    /// The row count of the evaluation domain the key was generated for.
    pub closed spec fn spec_rows(&self) -> u64 {
        self.rows
    }

    /// The row count of the evaluation domain the key was generated for.
    pub fn rows(&self) -> (r: u64)
        ensures
            r == self.spec_rows(),
    {
        self.rows
    }

    /// Relies on VerifyingKey::get_domain, EvaluationDomain::empty_lagrange
    /// and Polynomial::num_coeffs to snapshot the row count of the key's
    /// own evaluation domain, which keygen fixed to the `2^k` of the
    /// parameter set the key was generated with.
    #[verifier::external_body]
    pub fn new(vk: VkHandle) -> CircuitVk {
        let rows = vk.inner.get_domain().empty_lagrange().num_coeffs() as u64;
        CircuitVk { handle: vk, rows }
    }
}

/// The engine's verdict, named: verify_proof derives every challenge
/// deterministically (Blake2b over the proof bytes and commitments), so
/// whether one invocation accepts is a fixed function of the parameter
/// set, the key, the output limbs and the proof bytes.
pub uninterp spec fn engine_accepts(
    params: CommitmentParams,
    vk: CircuitVk,
    limbs: Seq<u64>,
    proof: Seq<u8>,
) -> bool;

/// Relies on halo2_proofs::plonk::verify_proof, invoked with the
/// SingleVerifier acceptance strategy (one proof checked independently,
/// no batching) and a Blake2bRead/Challenge255 transcript that derives
/// every challenge deterministically from the proof bytes — the verdict
/// is therefore the fixed function of the arguments that
/// `engine_accepts` names.  The public input is the single field
/// element built from the output limbs by Fp::from_raw.  The caller
/// must have checked that the parameter set and the key agree on the
/// row count `2^k`: verify_proof sizes the instance polynomial by the
/// parameters and asserts it against the key's own domain.  Under that
/// agreement every failure — malformed or truncated proof bytes
/// included — comes back as an error value.
#[verifier::external_body]
fn engine_verify(
    params: &CommitmentParams,
    vk: &CircuitVk,
    output: &PublicOutput,
    proof: &[u8],
) -> (r: Result<(), String>)
    requires
        params.spec_k() < 64,
        vk.spec_rows() == (1u64 << params.spec_k()),
    ensures
        r is Ok <==> engine_accepts(*params, *vk, output.limbs@, proof@),
{
    let instance = pasta_curves::Fp::from_raw(output.limbs);
    let strategy = halo2_proofs::plonk::SingleVerifier::new(&params.handle.inner);
    let mut transcript = halo2_proofs::transcript::Blake2bRead::<_, _, halo2_proofs::transcript::Challenge255<pasta_curves::vesta::Affine>>::init(&proof[..]);
    halo2_proofs::plonk::verify_proof(
        &params.handle.inner,
        &vk.handle.inner,
        strategy,
        &[&[&[instance]]],
        &mut transcript,
    ).map_err(|e| e.to_string())
}

/// The shared verification routine behind both hosts.
///
/// Stages, in order and failing fast: decode the commitment parameters
/// (`Decode` exactly when the buffer is not decodable); check that the
/// public-output buffer holds exactly 32 bytes (`Length` with the
/// actual length otherwise); reassemble the output's four little-endian
/// limbs; then invoke the cryptographic engine exactly once, surfacing
/// its verdict unchanged.  The result is `Ok` exactly when the
/// parameters decode, the output holds 32 bytes, the parameter set is
/// sized like the verifying key, and the engine accepts the proof for
/// the decoded limbs; every other outcome is the stage's error.
pub fn verify_poseidon(
    proof: &[u8],
    output_data: &[u8],
    params_data: &[u8],
    vk: &CircuitVk,
) -> (r: Result<(), VerifyError>)
    ensures
        match r {
            Ok(()) => params_decodable(params_data@) && output_data@.len() == 32
                && vk.spec_rows() == (1u64 << params_value(params_data@).spec_k())
                && engine_accepts(
                params_value(params_data@),
                *vk,
                limbs_of(output_data@),
                proof@,
            ),
            Err(e) => match e {
                VerifyError::Decode(_) => !params_decodable(params_data@),
                VerifyError::Length(n) => params_decodable(params_data@) && n != 32 && n
                    == output_data@.len(),
                VerifyError::Reject(_) => params_decodable(params_data@) && output_data@.len()
                    == 32 && !(vk.spec_rows() == (1u64 << params_value(params_data@).spec_k())
                    && engine_accepts(
                    params_value(params_data@),
                    *vk,
                    limbs_of(output_data@),
                    proof@,
                )),
            },
        },
{
    let params = match read_params(params_data) {
        Ok(p) => p,
        Err(e) => {
            return Err(e);
        },
    };
    let output = match decode_output(output_data) {
        Ok(o) => o,
        Err(e) => {
            return Err(e);
        },
    };
    if vk.rows() != (1u64 << params.k()) {
        return Err(VerifyError::Reject("parameter size does not match the verifying key".to_owned()));
    }
    match engine_verify(&params, vk, &output, proof) {
        Ok(()) => Ok(()),
        Err(s) => Err(VerifyError::Reject(s)),
    }
}

} // verus!
