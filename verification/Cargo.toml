[package]
name = "git_testament"
version = "0.2.0"
edition = "2021"
publish = false

[dependencies]
time = { version = "0.3", features = ["formatting", "macros"] }
log = "0.4"
proc-macro2 = "1.0"
quote = "1.0"
syn = "2.0"

[dev-dependencies]
regex = "1"
