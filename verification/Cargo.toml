[package]
name = "xml_schema"
version = "0.1.0"
edition = "2021"
publish = false

[dependencies]
heck = "=0.5.0"
xml-rs = "=0.8.29"
unicode-ident = "=1.0.27"
proc-macro2 = "=1.0.107"
syn = { version = "=2.0.119", features = ["full"] }
quote = "=1.0.47"
darling = "=0.20.11"
log = "=0.4.34"
simple_logger = "=5.2.0"
yaserde = "=0.13.1"
yaserde_derive = "=0.13.1"
reqwest = { version = "=0.11.27", default-features = false, features = ["blocking"] }
