[package]
name = "careful_resume"
version = "0.1.0"
edition = "2021"
publish = false

[dependencies]
chrono = "=0.4.45"
hex = "=0.4.3"
log = "=0.4.35"
pretty_env_logger = "=0.5.0"
quiche = "=0.18.0"
quiche-tokio = "=0.1.0"
quiver-h3 = "=0.1.0"
rand = "=0.8.8"
rustbreak = { version = "=2.0.0", features = ["yaml_enc"] }
serde = { version = "=1.0.229", features = ["derive"] }
tokio = { version = "=1.54.1", features = ["full"] }
url = "=2.5.8"
