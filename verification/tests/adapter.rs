use halo2_proofs::poly::commitment::Params;
use pasta_curves::vesta;

use poseidon_verifier::errors::exit_code;
use poseidon_verifier::errors::VerifyError;
use poseidon_verifier::output::decode_output;
use poseidon_verifier::output::encode_output;
use poseidon_verifier::output::PublicOutput;
use poseidon_verifier::params::read_params;
use poseidon_verifier::session::Phase;
use poseidon_verifier::session::Session;
use poseidon_verifier::session::Slot;

#[test]
fn decode_output_low_limb_one() {
    let mut bytes = [0u8; 32];
    bytes[0] = 0x01;
    let p = decode_output(&bytes).unwrap();
    assert_eq!(p.limbs, [1u64, 0, 0, 0]);
}

#[test]
fn decode_output_known_pattern() {
    let mut bytes = [0u8; 32];
    for i in 0..32 {
        bytes[i] = i as u8;
    }
    let p = decode_output(&bytes).unwrap();
    assert_eq!(
        p.limbs,
        [
            0x0706050403020100u64,
            0x0f0e0d0c0b0a0908u64,
            0x1716151413121110u64,
            0x1f1e1d1c1b1a1918u64,
        ]
    );
}

#[test]
fn decode_output_wrong_length_reports_actual() {
    for len in [0usize, 1, 31, 33, 64] {
        let bytes = vec![0u8; len];
        match decode_output(&bytes) {
            Err(VerifyError::Length(n)) => assert_eq!(n, len),
            _ => panic!("length {} must be refused with the actual length", len),
        }
    }
}

#[test]
fn output_bytes_roundtrip() {
    let mut bytes = [0u8; 32];
    for i in 0..32 {
        bytes[i] = (i as u8).wrapping_mul(37).wrapping_add(11);
    }
    let p = decode_output(&bytes).unwrap();
    let back = encode_output(&p);
    assert_eq!(back.as_slice(), &bytes[..]);
}

#[test]
fn output_limbs_roundtrip() {
    let p = PublicOutput { limbs: [u64::MAX, 0, 0x0123456789abcdef, 42] };
    let bytes = encode_output(&p);
    assert_eq!(bytes.len(), 32);
    let q = decode_output(bytes.as_slice()).unwrap();
    assert_eq!(q.limbs, p.limbs);
}

#[test]
fn exit_code_flattens_result() {
    assert_eq!(exit_code(&Ok(())), 0);
    assert_eq!(exit_code(&Err(VerifyError::Length(31))), -1);
    assert_eq!(exit_code(&Err(VerifyError::Decode(String::from("x")))), -1);
    assert_eq!(exit_code(&Err(VerifyError::Reject(String::from("x")))), -1);
}

#[test]
fn session_acquires_slots_in_order() {
    let mut s = Session::new();
    assert_eq!(s.phase(), Phase::Acquiring(Slot::Params));
    assert_eq!(s.slot_index(), Some(0));
    s.supply(vec![1]);
    assert_eq!(s.slot_index(), Some(1));
    s.supply(vec![2]);
    assert_eq!(s.slot_index(), Some(2));
    s.supply(vec![3]);
    assert_eq!(s.slot_index(), Some(3));
    s.supply(vec![4]);
    assert_eq!(s.phase(), Phase::Ready);
    assert_eq!(s.slot_index(), None);
}

#[test]
fn session_failure_is_terminal() {
    let mut s = Session::new();
    s.supply(vec![1]);
    s.fail();
    assert_eq!(s.phase(), Phase::Failed);
    assert_eq!(s.slot_index(), None);
}

#[test]
fn read_params_accepts_real_encoding() {
    let params: Params<vesta::Affine> = Params::new(4);
    let mut bytes: Vec<u8> = vec![];
    params.write(&mut bytes).unwrap();
    let decoded = read_params(&bytes).unwrap();
    assert_eq!(decoded.k(), 4);
}

#[test]
fn read_params_refuses_truncation() {
    let params: Params<vesta::Affine> = Params::new(4);
    let mut bytes: Vec<u8> = vec![];
    params.write(&mut bytes).unwrap();
    match read_params(&bytes[..bytes.len() / 2]) {
        Err(VerifyError::Decode(_)) => {},
        _ => panic!("a truncated parameter buffer must fail to decode"),
    }
}

#[test]
fn read_params_refuses_oversize_exponent() {
    let bytes = [200u8, 0, 0, 0, 7, 7, 7];
    match read_params(&bytes) {
        Err(VerifyError::Decode(_)) => {},
        _ => panic!("an oversize size exponent must fail to decode"),
    }
}

#[test]
fn read_params_refuses_short_buffer_with_large_exponent() {
    let bytes = [30u8, 0, 0, 0, 1, 2, 3];
    match read_params(&bytes) {
        Err(VerifyError::Decode(_)) => {},
        _ => panic!("a short buffer must fail to decode whatever its size field"),
    }
}

#[test]
fn read_params_refuses_tiny_buffer() {
    let bytes = [5u8, 0];
    match read_params(&bytes) {
        Err(VerifyError::Decode(_)) => {},
        _ => panic!("a buffer shorter than the size field must fail to decode"),
    }
}

#[test]
fn read_params_refuses_garbage_points() {
    let mut bytes = vec![4u8, 0, 0, 0];
    bytes.extend(std::iter::repeat(0xabu8).take(32 * 40));
    match read_params(&bytes) {
        Err(VerifyError::Decode(_)) => {},
        _ => panic!("invalid point encodings must fail to decode"),
    }
}
