[package]
name = "ember_network_connect"
version = "0.1.0"
edition = "2021"
publish = false

[dependencies]
nix = { version = "*", features = ["signal", "user"] }
clap = { version = "*", features = ["derive", "env"] }
iron = "*"
iron-cors = "*"
mount = "*"
router = "*"
staticfile = "*"
persistent = "*"
params = "*"
network-manager = "*"
thiserror = "*"
tracing = "*"
tracing-subscriber = { version = "*", features = ["env-filter"] }
