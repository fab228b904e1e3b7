[package]
name = "web_starter"
version = "0.1.0"
edition = "2021"
publish = false

[dependencies]
Inflector = "=0.11.4"
rand = "=0.8.8"
uuid = { version = "=1.29.1", features = ["v4", "serde"] }
chrono = { version = "=0.4.45", features = ["serde"] }
serde = { version = "=1.0.229", features = ["derive"] }
tera = "=1.20.1"
actix-web = "=4.18.1"
actix-identity = "=0.7.1"
actix-session = { version = "=0.9.0", features = ["cookie-session"] }
diesel = { version = "=2.3.14", features = ["postgres", "uuid", "chrono", "r2d2", "64-column-tables"] }
diesel-derive-enum = { version = "=2.1.0", features = ["postgres"] }
diesel_migrations = "=2.3.2"
dotenv = "=0.15.0"
env_logger = "=0.11.11"
fluent-templates = { version = "=0.13.3", features = ["tera"] }
lazy_static = "=1.5.1"
r2d2 = "=0.8.10"
sendgrid = "=0.27.2"
shrinkwraprs = "=0.3.0"
strum = { version = "=0.26.3", features = ["derive"] }
tera-text-filters = "=1.0.0"
