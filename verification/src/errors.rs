use vstd::prelude::*;

verus! {

/// Why a verification attempt did not end in acceptance.
///
/// Every stage of the adapter fails fast: the first stage that cannot
/// complete produces its variant and nothing later runs.  The carried
/// data preserves the underlying cause rather than swallowing it; the
/// host flattens it to its own reporting channel at the very end.
#[derive(Debug)]
pub enum VerifyError {
    /// The commitment-parameter bytes could not be decoded.
    /// Carries the decoder's own message.
    Decode(String),
    /// The public-output buffer did not hold exactly 32 bytes.
    /// Carries the actual length seen.
    Length(usize),
    /// The verification engine rejected the proof for the claimed output.
    /// Carries the engine's rejection message.
    Reject(String),
}

/// Flattens a verification result to the constrained host's convention:
/// exit code 0 on acceptance, -1 on any failure whatsoever.
pub fn exit_code(r: &Result<(), VerifyError>) -> (c: i8)
    ensures
        c == 0 <==> r is Ok,
        c == 0 || c == -1,
{
    match r {
        Ok(_) => 0,
        Err(_) => -1,
    }
}

} // verus!
