[package]
name = "poseidon_verifier"
version = "0.1.0"
edition = "2021"
publish = false

[dependencies]
halo2_proofs = "=0.4.0"
halo2_gadgets = "=0.6.0"
pasta_curves = "=0.6.0"

[dev-dependencies]
rand_core = "=0.10.1"
