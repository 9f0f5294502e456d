[package]
name = "changelog"
version = "0.1.0"
edition = "2021"
publish = false

[dependencies]
actix-web = "4"
chrono = { version = "=0.4.45", features = ["serde"] }
config = "*"
derive_more = { version = "*", features = ["display", "from"] }
dotenv = "0.15"
ormlite = { version = "=0.25.0", features = ["postgres", "chrono"] }
serde = { version = "1", features = ["derive"] }
uuid = { version = "=1.27.0", features = ["v7", "serde"] }

[dev-dependencies]
serde_json = "1"
