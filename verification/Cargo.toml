[package]
name = "blec"
version = "0.18.0"
edition = "2021"
publish = false

[dependencies]
async-trait = "=0.1.92"
base64 = "=0.23.1"
btleplug = { version = "=0.13.5", features = ["serde"] }
# Only here so that btleplug's libdbus is built from source where the system has none.
dbus = { version = "=0.9.12", features = ["vendored"] }
dioxus = { version = "=0.7.10", default-features = false, features = ["macro", "html", "hooks", "signals"] }
futures = "=0.3.34"
jni = "=0.22.4"
ndk-context = "=0.1.1"
once_cell = "=1.21.4"
serde = { version = "=1.0.229", features = ["derive"] }
serde_json = "=1.0.154"
thiserror = "=2.0.21"
tokio = { version = "=1.54.1", features = ["full"] }
tracing = "=0.1.44"
uuid = { version = "=1.29.0", features = ["serde"] }
