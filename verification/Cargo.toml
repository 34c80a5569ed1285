[package]
name = "backend_insights"
version = "0.1.0"
edition = "2021"
publish = false

[dependencies]
rand = "=0.8.8"
bcrypt = "=0.19.3"
jsonwebtoken = "=9.3.1"
serde_json = "=1.0.151"
serde = { version = "1", features = ["derive"] }
bson = "=3.1.0"
chrono = "=0.4.45"
base32 = "=0.5.1"
base64 = "=0.23.1"
totp-rs = { version = "=5.7.2", features = ["otpauth"] }
qrcode = "0.14"
image = { version = "0.25", default-features = false, features = ["png"] }
actix-web = "4"
actix-cors = "0.7"
actix-service = "2"
aws-sdk-sesv2 = "1"
aws-credential-types = "1"
aws-types = "1"
dotenv = "0.15"
futures = "0.3"
mongodb = "3"
