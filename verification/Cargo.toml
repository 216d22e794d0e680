[package]
name = "exactapi"
version = "0.1.0"
edition = "2021"
publish = false

[dependencies]
actix-cors = "=0.7.2"
actix-multiresponse = "=0.4.2"
actix-web = { version = "=4.18.1", default-features = false, features = ["macros"] }
async-recursion = "=1.2.0"
derive_builder = "=0.20.2"
envy = "=0.4.2"
moka = { version = "=0.11.3", features = ["future"] }
noiseless-tracing-actix-web = "=0.1.0"
prost = "=0.11.9"
reqwest = { version = "=0.11.27", features = ["json"] }
reqwest-protobuf = "=0.1.0"
serde = { version = "=1.0.229", features = ["derive"] }
serde_qs = "=1.1.3"
strum_macros = "=0.28.0"
thiserror = "=1.0.69"
tracing = "=0.1.44"
tracing-actix-web = "=0.7.25"
tracing-subscriber = { version = "=0.3.23", features = ["env-filter"] }
