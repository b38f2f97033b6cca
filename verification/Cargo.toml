[package]
name = "cw721_soulbound"
version = "0.1.0"
edition = "2021"
publish = false

[dependencies]
cosmwasm-schema = "=1.5.11"
cosmwasm-std = "=1.5.11"
cw-ownable = "=0.5.1"
cw-storage-plus = "=1.2.0"
cw-utils = "=1.0.3"
cw2 = "=1.1.2"
cw721-base = "=0.17.0"
thiserror = "=1.0.69"

[dev-dependencies]
cw721 = "=0.17.0"
cw721-metadata-onchain = "=0.17.0"
