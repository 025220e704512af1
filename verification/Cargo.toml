[package]
name = "pass_authn"
version = "0.1.0"
edition = "2021"
publish = false

[dependencies]
sha2 = "0.10"
blake2 = "0.10"
schnorrkel = "0.11"
ed25519-dalek = "2"
k256 = "0.13"
p256 = "0.13"
base64 = "0.22"
url = "2"
serde_json = "1"
coset = "0.3"
