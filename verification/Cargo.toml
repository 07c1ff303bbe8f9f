[package]
name = "plugin_ipc"
version = "0.1.0"
edition = "2021"
publish = false

[dependencies]
chrono = { version = "0.4", default-features = false, features = ["clock", "std"] }
env_logger = { version = "0.11", default-features = false, features = ["humantime"] }
futures = { version = "0.3", default-features = false, features = ["executor", "std"] }
log = "0.4"
serde = { version = "1", features = ["derive"] }
serde_json = "1"
swc_common = "*"
swc_ecma_ast = "*"
swc_ecma_codegen = "*"
swc_ecma_parser = "*"
swc_ecma_transforms_base = "*"
swc_ecma_transforms_react = "*"
swc_ecma_transforms_typescript = "*"
thiserror = "1"
tokio = { version = "1", features = ["rt", "sync", "time"] }
uuid = { version = "1", features = ["v4"] }
