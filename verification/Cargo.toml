[package]
name = "life_tracker"
version = "0.1.0"
edition = "2021"
publish = false

[dependencies]
actix-files = "=0.6.10"
actix-service = "=2.0.3"
actix-session = { version = "=0.10.1", features = ["cookie-session"] }
actix-web = { version = "=4.18.1", default-features = false, features = ["macros", "cookies", "secure-cookies"] }
actix-web-httpauth = "=0.8.3"
ammonia = "=4.2.4"
bcrypt = "=0.17.1"
chrono = { version = "=0.4.45", features = ["serde"] }
config = { version = "=0.14.1", default-features = false, features = ["toml"] }
diesel = { version = "=2.3.14", features = ["sqlite", "r2d2", "chrono"] }
diesel_migrations = "=2.3.2"
dotenvy = "=0.15.7"
env_logger = { version = "=0.11.11", default-features = false }
futures = "=0.3.34"
handlebars = { version = "=6.4.4", features = ["dir_source"] }
jsonwebtoken = "9"
log = "=0.4.35"
maplit = "=1.0.2"
reqwest = { version = "=0.12.28", default-features = false, features = ["json"] }
serde = { version = "=1.0.229", features = ["derive"] }
serde_derive = "=1.0.229"
serde_json = "=1.0.154"
