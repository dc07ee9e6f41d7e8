[package]
name = "truefix-twsapi-client"
version = "0.1.6"
edition = "2021"
publish = false

[dependencies]
prost = "*"
rust_decimal = "*"
serde = { version = "*", features = ["derive"] }
serde_json = "*"
thiserror = "*"
tokio = { version = "*", features = ["net", "io-util", "rt"] }
