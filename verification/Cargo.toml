[package]
name = "todo_service"
version = "0.1.0"
edition = "2021"
publish = false

[dependencies]
bytes = "0.5"
diesel = { version = "1.4", features = ["postgres"] }
dotenv = "0.15"
hyper = "0.13"
pretty_env_logger = "0.4"
serde = { version = "1", features = ["derive"] }
serde_json = "1"
tokio = { version = "0.2", features = ["full"] }
