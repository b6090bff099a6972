[package]
name = "android_collector"
version = "0.1.0"
edition = "2021"
publish = false

[dependencies]
glob-sl = "=0.4.2"
sha2 = "=0.11.0"
base16ct = { version = "=1.0.0", features = ["alloc"] }
jwalk-meta = "=0.9.4"
flume = "=0.12.0"
clap = "=4.6.7"
serde = { version = "=1.0.229", features = ["derive"] }
serde_json = "=1.0.151"
procfs = "=0.18.0"
yara-x = "=1.7.1"
yara-x-proto = "=1.7.1"
yara-x-parser = "=1.7.1"
yara-x-macros = "=1.7.1"
anyhow = "=1.0.104"
log = "=0.4.34"
env_logger = "=0.11.11"
wild = "=2.2.1"
