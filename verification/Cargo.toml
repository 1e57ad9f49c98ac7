[package]
name = "streamsite"
version = "0.1.0"
edition = "2021"
publish = false

[dependencies]
bcrypt = "0.15"
rand = "0.8"
rocket = "0.5"
rocket_db_pools = { version = "0.2", features = ["sqlx_sqlite"] }
rocket_dyn_templates = { version = "0.2", features = ["tera"] }
rocket_ws = "0.1"
tokio = { version = "1", features = ["macros", "sync"] }
gstreamer = "0.22"
