[package]
name = "auth_core"
version = "0.1.0"
edition = "2021"
publish = false

[dependencies]
bcrypt = "0.15"
hmac = "0.12"
jwt = "0.16"
sha2 = "0.10"
diesel = { version = "2", features = ["postgres"] }
dotenvy = "0.15"
prost = "0.13"
tokio = { version = "1", features = ["macros", "rt-multi-thread"] }
tonic = "0.12"
