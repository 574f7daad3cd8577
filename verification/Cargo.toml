[package]
name = "bench"
version = "0.1.0"
edition = "2021"
publish = false

[dependencies]
bincode = "=1.3.3"
clap = { version = "=4.6.7", features = ["derive"] }
itertools = "0.14"
num-traits = "0.2"
p3-air = "=0.3.0"
p3-baby-bear = "=0.3.0"
p3-blake3-air = "=0.3.0"
p3-challenger = "=0.3.0"
p3-commit = "=0.3.0"
p3-dft = "=0.3.0"
p3-field = "=0.3.0"
p3-fri = "=0.3.0"
p3-keccak = "=0.3.0"
p3-keccak-air = "=0.3.0"
p3-koala-bear = "=0.3.0"
p3-matrix = "=0.3.0"
p3-merkle-tree = "=0.3.0"
p3-poseidon2-air = "=0.3.0"
p3-symmetric = "=0.3.0"
p3-uni-stark = "=0.3.0"
rand = "=0.9.5"
rayon = "=1.12.0"
serde = { version = "=1.0.229", features = ["derive"] }
stwo = "=2.3.0"
stwo-constraint-framework = "=2.3.0"
tracing-forest = "0.1.6"
tracing-subscriber = { version = "=0.3.23", features = ["env-filter"] }
