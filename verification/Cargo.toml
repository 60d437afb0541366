[package]
name = "kasmcloud_host"
version = "0.1.0"
edition = "2021"

[dependencies]
anyhow = "1"
async-nats = "0.33"
async-trait = "0.1"
base64 = "0.21"
bytes = "1"
chrono = "=0.4.45"
clap = { version = "4", features = ["derive"] }
config = { version = "0.13", default-features = false, features = ["yaml"] }
futures = "0.3"
hex = "=0.4.3"
http = "0.2"
k8s-openapi = { version = "0.20", features = ["v1_27", "schemars"] }
kube = { version = "0.87", features = ["runtime", "derive"] }
names = { version = "0.14", default-features = false }
nkeys = "=0.3.2"
rmp-serde = "=1.3.1"
schemars = "0.8"
serde = { version = "1", features = ["derive"] }
serde_json = "1"
sha2 = "=0.10.9"
tokio = { version = "1", features = ["full"] }
tracing = "0.1"
ulid = "1.1, <1.2"
url = "2"
uuid = "=1.29.0"
wascap = "=0.12.0"
wasmcloud-control-interface = "=0.32.1"
wasmcloud-core = "=0.2.0"
# Nothing here calls these two. They keep `nuid`, which `wascap` depends on and
# which takes any `rand` from 0.8 on, at `rand` 0.8, the one it compiles with.
rand = "=0.9.0-beta.1"
rand_core = "=0.10.0-rc-2"
