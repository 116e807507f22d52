[package]
name = "lucky_draw"
version = "0.1.0"
edition = "2021"
publish = false

[dependencies]
anyhow = "*"
cid = "=0.11.3"
serde = "=1.0.229"
fvm_ipld_blockstore = "=0.3.2"
fvm_ipld_encoding = "=0.5.4"
fvm_ipld_hamt = "=0.10.6"
fvm_sdk = "=4.8.3"
fvm_shared = "=4.8.3"

[dev-dependencies]
base64 = "=0.13.1"
