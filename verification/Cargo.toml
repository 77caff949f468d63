[package]
name = "oleg"
version = "0.1.0"
edition = "2021"
publish = false

[dependencies]
anyhow = "=1.0.104"
async-trait = "=0.1.92"
base64 = "=0.21.7"
chrono = "=0.4.45"
dotenv = "=0.15.0"
dptree = "=0.3.0"
envy = "=0.4.2"
google-translate3 = "=5.0.5"
hyper-rustls = { version = "=0.25.0", features = ["http2"] }
once_cell = "=1.21.4"
openai = "=1.1.1"
regex = "=1.13.1"
reqwest = { version = "=0.11.27", features = ["json"] }
serde = { version = "=1.0.229", features = ["derive"] }
serde_json = "=1.0.154"
sqlite = "=0.31.1"
takecell = "=0.1.1"
teloxide = { version = "=0.12.2", features = ["macros"] }
tokio = { version = "=1.54.1", features = ["macros", "rt-multi-thread", "sync"] }
