[package]
name = "voyager"
version = "0.1.0"
edition = "2021"
publish = false

[dependencies]
cosmwasm-std = { version = "1", features = ["stargate"] }
cw-controllers = "1"
cw-storage-plus = "1"
cw2 = "1"
ethers = { version = "2", default-features = false }
futures = "0.3"
prost = "0.12"
reqwest = { version = "0.11", default-features = false, features = ["json"] }
serde = { version = "1", features = ["derive"] }
serde_json = "1"
sqlx = { version = "0.7", default-features = false, features = ["postgres", "runtime-tokio"] }
thiserror = "1"
tokio = { version = "1", features = ["macros", "rt-multi-thread", "time"] }
tracing = "0.1"
typenum = "1"
