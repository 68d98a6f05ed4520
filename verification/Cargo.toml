[package]
name = "r2_storage"
version = "0.1.0"
edition = "2021"
publish = false

[dependencies]
arboard = "3"
aws-credential-types = "1"
aws-sdk-s3 = { version = "1", features = ["behavior-version-latest"] }
chrono = "0.4"
dirs = "6"
dotenv = "0.15"
serde = { version = "1", features = ["derive"] }
serde_json = "1"
