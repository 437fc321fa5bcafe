[package]
name = "azvm_manager"
version = "0.1.0"
edition = "2021"
publish = false

[dependencies]
url = "2"
azure_core = "0.21"
azure_identity = "0.21"
azure_mgmt_compute = "0.21"
azure_mgmt_recoveryservicesbackup = "0.21"
azure_mgmt_resources = "0.21"
azure_mgmt_subscription = "0.21"
clap = { version = "4", features = ["derive"] }
colored = "2"
futures-util = "0.3"
log = "0.4"
reqwest = "0.11"
serde = { version = "1", features = ["derive"] }
serde_json = "1"
spinoff = "0.8"
tabled = "0.15"
tokio = { version = "1", features = ["fs", "macros", "rt-multi-thread", "time"] }
