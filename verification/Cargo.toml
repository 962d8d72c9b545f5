[package]
name = "escrow_dest"
version = "0.1.0"
edition = "2021"
publish = false

[dependencies]
sha3 = "=0.10.9"
sylvia = "=1.3.6"
cw-storage-plus = "=2.0.0"
