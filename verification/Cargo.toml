[package]
name = "fake-cdn"
version = "0.1.0"
edition = "2021"
publish = false

[dependencies]
flate2 = "1"
tar = "0.4"
structopt = "0.3"
serde = { version = "1", features = ["derive"] }
toml = "0.8"
serde_json = "1"
log = "0.4"
colog = "1"
tokio = { version = "1", features = ["fs", "macros", "rt-multi-thread"] }
actix-web = "4"
actix-files = "0.6"
actix-multipart = "0.7"
