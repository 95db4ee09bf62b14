[package]
name = "mbus_httpd"
version = "0.1.0"
edition = "2021"
publish = false

[dependencies]
hyper = { version = "0.14", features = ["server", "http1", "tcp"] }
lazy_static = "1"
log = "0.4"
serde = { version = "1", features = ["derive"] }
serde_json = "1"
sysfs_gpio = "*"
tokio = { version = "1", features = ["rt-multi-thread", "macros", "net"] }
