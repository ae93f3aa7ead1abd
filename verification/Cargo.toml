[package]
name = "applyforge"
version = "0.1.0"
edition = "2021"
publish = false

[dependencies]
argon2 = "0.5"
rand = "0.8"
uuid = { version = "1", features = ["v4", "serde"] }
serde = { version = "1", features = ["derive"] }
serde_json = "1"
actix-web = { version = "4", default-features = false, features = ["macros"] }
actix-cors = "0.7"
sqlx = { version = "0.8", default-features = false, features = ["runtime-tokio", "postgres"] }
dotenv = "0.15"
yew = { version = "0.21", features = ["csr"] }
gloo = "0.11"
gloo-net = "0.5"
gloo-storage = "0.3"
js-sys = "0.3"
web-sys = { version = "0.3", features = ["HtmlInputElement", "HtmlSelectElement"] }
wasm-bindgen-futures = "0.4"
