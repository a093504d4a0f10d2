[package]
name = "stack_tail"
version = "0.1.0"
edition = "2021"
publish = false

[dependencies]
chrono = "0.4"
chrono-tz = "*"
colored = "1"
console = "*"
futures = "0.1"
rusoto_cloudformation = { version = "0.42", default-features = false, features = ["rustls"] }
rusoto_core = { version = "0.42", default-features = false, features = ["rustls"] }
structopt = "0.3"
tabwriter = "1"
tokio = "0.1"
