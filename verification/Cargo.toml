[package]
name = "images_microservice"
version = "0.1.0"
edition = "2021"
publish = false

[dependencies]
futures = "=0.3.34"
hyper = { version = "=0.14.32", features = ["http1", "server", "stream", "tcp", "runtime"] }
hyper-staticfile = "=0.9.6"
rand = "=0.7.3"
tokio = { version = "=1.54.1", features = ["fs", "io-util", "rt-multi-thread"] }

[dev-dependencies]
regex = "=1.13.1"
