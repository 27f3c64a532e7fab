[package]
name = "lp"
version = "0.1.0"
edition = "2021"
publish = false

[dependencies]
chrono = "0.4"
diesel = { version = "1.4", features = ["postgres", "chrono"] }
futures = { version = "0.3", features = ["thread-pool"] }
glob = "0.3"
libc = "0.2"
rand = "0.7"
toml = "0.5"
