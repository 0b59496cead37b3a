[package]
name = "solr_post"
version = "0.1.0"
edition = "2021"
publish = false

[dependencies]
argh = "0.1"
base64 = "0.22"
futures = "0.3"
log = "0.4"
mime_guess = "2"
rayon = "1"
regex = "1"
reqwest = { version = "0.12", default-features = false }
tokio = { version = "1", features = ["macros", "rt-multi-thread"] }
urlencoding = "2"
wax = "0.6"
