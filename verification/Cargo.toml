[package]
name = "zk_circuits"
version = "0.1.0"
edition = "2021"
publish = false

[dependencies]
ark-bls12-381 = "0.5"
ark-crypto-primitives = { version = "0.5", features = ["crh", "merkle_tree", "sponge", "r1cs"] }
ark-ff = "0.5"
ark-groth16 = "0.5"
ark-r1cs-std = "0.5"
ark-relations = "0.5"
ark-serialize = "0.5"
ark-snark = "0.5"
ark-std = "0.5"
getrandom = "0.2"
hex = "0.4"
serde = { version = "1", features = ["derive"] }
serde_json = "1"
