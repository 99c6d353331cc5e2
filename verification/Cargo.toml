[package]
name = "telescope"
version = "0.1.0"
edition = "2021"
publish = false

[dependencies]
actix-web = { version = "3", features = ["openssl"] }
chrono = { version = "0.4", features = ["serde"] }
dotenv = "0.15"
env_logger = "0.8"
handlebars = "3"
lettre = "0.9"
log = "0.4"
openssl = "0.10"
serde = { version = "1", features = ["derive"] }
serde_json = "1"
structopt = "0.3"
toml = "0.5"
