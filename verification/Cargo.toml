[package]
name = "pacaptr"
version = "0.1.0"
edition = "2021"
publish = false

[dependencies]
regex = "1"
tabled = "*"
xml-rs = "*"
proc-macro2 = "1"
syn = "*"
tokio = { version = "1", features = ["process", "rt", "macros", "io-util"] }
thiserror = "*"
anyhow = "1"
xshell = "0.2"
