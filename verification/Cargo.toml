[package]
name = "docker_owl"
version = "0.1.0"
edition = "2021"
publish = false

[dependencies]
url = "=2.5.8"
shiplift = "=0.7.0"
tera = { version = "=1.20.1", default-features = false }
docopt = "=1.1.1"
serde = { version = "=1.0.229", features = ["derive"] }
termios = "=0.3.3"
failure = "=0.1.8"
openssl-probe = "=0.1.6"
futures = "=0.3.34"
tokio = { version = "=1.54.1", features = ["rt-multi-thread"] }
openssl = "=0.10.82"
