[package]
name = "anonymous_bounded_voting"
version = "0.1.0"
edition = "2021"
publish = false

[dependencies]
bulletproofs = "4"
curve25519-dalek-ng = "4"
merlin = "3"
rand_chacha = "0.3"
wedpr_l_crypto_zkp_discrete_logarithm_proof = "=1.2.0"
wedpr_l_crypto_zkp_utils = "=1.2.0"
wedpr_l_protos = "=1.2.0"
wedpr_l_utils = "=1.1.0"
wedpr_l_crypto_hash_keccak256 = "=1.1.0"
wedpr_l_crypto_signature_secp256k1 = "=1.1.0"

[dev-dependencies]
curve25519-dalek = "=1.2.6"
