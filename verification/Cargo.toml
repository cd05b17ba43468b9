[package]
name = "vpn_api"
version = "0.1.0"
edition = "2021"
publish = false

[dependencies]
actix-cors = "0.6"
actix-web = "4"
async-graphql = "3"
async-graphql-actix-web = "3"
async-trait = "0.1"
bcrypt = "0.10"
chrono = "0.4"
diesel = { version = "1.4", features = ["postgres", "r2d2"] }
diesel_migrations = "1.4"
dotenv = "0.15"
env_logger = "0.9"
handlebars = "4"
ipaddress = "0.1"
jsonwebtoken = "8"
serde = { version = "1", features = ["derive"] }
serde_json = "1"
