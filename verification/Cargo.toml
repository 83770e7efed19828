[package]
name = "tacd"
version = "0.1.0"
edition = "2021"
publish = false

[dependencies]
anyhow = "=1.0.104"
async-std = "=1.13.2"
async-trait = "=0.1.92"
embedded-graphics = "=0.8.2"
futures = "=0.3.34"
log = "=0.4.34"
serde = { version = "=1.0.229", features = ["derive", "rc"] }
serde_json = "=1.0.154"
sysfs-class = "=0.1.3"
unique-token = "=0.2.0"
zbus = "=5.19.0"
zvariant = "=5.15.1"
