[package]
name = "basin_gateway"
version = "0.1.0"
edition = "2021"
publish = false

[dependencies]
anyhow = "1"
async-tempfile = "*"
bytes = "1"
cid = "*"
clap = { version = "4", features = ["derive", "env"] }
futures = "0.3"
log = "0.4"
serde = { version = "1", features = ["derive"] }
serde_json = "1"
stderrlog = "*"
tokio = { version = "1", features = ["macros", "rt-multi-thread"] }
warp = "0.3"
