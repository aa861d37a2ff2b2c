[package]
name = "aws_parameter_update"
version = "0.1.0"
edition = "2021"
publish = false

[dependencies]
yaml-rust = "*"
rusoto_core = { version = "*", default-features = false, features = ["rustls"] }
rusoto_ssm = { version = "*", default-features = false, features = ["rustls"] }
tokio = { version = "*", features = ["macros", "rt-multi-thread"] }
clap = "*"
log = "*"
simple_logger = "*"
