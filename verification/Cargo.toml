[package]
name = "gap_buffer"
version = "0.1.0"
edition = "2021"
publish = false

[dependencies]
async-std = "1"
crossbeam = "0.8"
futures-lite = "1"
libc = "0.2"
regex = "1"
reqwest = { version = "0.11", default-features = false, features = ["blocking"] }
surf = "2"
text-colorizer = "1"
waker-fn = "1"

[dev-dependencies]
rand = "0.8"
