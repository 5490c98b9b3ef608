[package]
name = "canhttp"
version = "0.1.0"
edition = "2021"
publish = false

[dependencies]
async-trait = "0.1"
candid = "0.10"
http = "1"
ic-agent = "*"
ic-cdk = "0.18"
ic-error-types = "0.2"
ic-management-canister-types = "0.3"
pocket-ic = "*"
serde = { version = "1", features = ["derive"] }
serde_bytes = "0.11"
serde_json = "1"
thiserror = "2"
tower = { version = "0.5", features = ["util"] }
tower-layer = "0.3"
