[package]
name = "stripnest"
version = "0.1.0"
edition = "2021"
publish = false

[dependencies]
anyhow = "*"
ctrlc = "*"
jagua-rs = { version = "=1.0.0", features = ["spp"] }
jiff = "*"
log = "*"
num_cpus = "*"
numfmt = "=1.2.0"
rand = "=0.10.3"
serde_json = "*"
sysinfo = "=0.39.6"
web-time = "=1.1.0"
