[package]
name = "community_hub"
version = "0.1.0"
edition = "2021"
publish = false

[dependencies]
time = "0.3"
Inflector = "0.11"
bcrypt = "0.15"
rocket = { version = "0.5", features = ["secrets", "json"] }
rocket_dyn_templates = { version = "0.2", features = ["tera"] }
reqwest = { version = "0.12", default-features = false }
dotenv = "0.15"
serde = { version = "1", features = ["derive"] }
serde_json = "1"
sqlx = { version = "0.7", default-features = false, features = ["postgres", "runtime-tokio"] }
