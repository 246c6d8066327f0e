[package]
name = "user_crud"
version = "0.1.0"
edition = "2021"
publish = false

[dependencies]
anyhow = "=1.0.104"
async-trait = "=0.1.92"
dotenv = "=0.15.0"
sea-orm = { version = "=1.1.20", default-features = false, features = ["macros", "with-json"] }
sea-orm-migration = { version = "=1.1.20", default-features = false }
serde = { version = "=1.0.229", features = ["derive"] }
serde_json = "=1.0.151"
tokio = { version = "=1.53.2", features = ["macros", "rt-multi-thread"] }
uuid = { version = "=1.27.0", features = ["v4"] }
