[package]
name = "based_smiles"
version = "0.1.0"
edition = "2021"
publish = false

[dependencies]
anchor-lang = "0.30"
anchor-spl = { version = "0.30", default-features = false, features = ["token"] }
