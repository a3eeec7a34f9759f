[package]
name = "identity_did"
version = "0.1.0"
edition = "2021"
publish = false
