[package]
name = "generic_json"
version = "0.1.0"
edition = "2021"
publish = false

[dependencies]
cc-traits = "*"
json-number = "*"
smallstr = "*"
smallvec = "*"
