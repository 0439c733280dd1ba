[package]
name = "jitregistry"
version = "0.1.0"
edition = "2021"
publish = false

[dependencies]
sha2 = "0.10"
hex = "0.4"
serde_json = "1"
actix-web = { version = "4", default-features = false, features = ["macros"] }
structopt = "0.3"
walkdir = "2"
oci-spec = { version = "0.7", default-features = false, features = ["image"] }
