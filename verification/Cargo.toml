[package]
name = "corgea"
version = "0.1.0"
edition = "2021"
publish = false

[dependencies]
chrono = "*"
clap = { version = "*", features = ["derive"] }
dirs = "*"
git2 = { version = "*", default-features = false }
globset = "*"
http-body-util = "*"
hyper = { version = "*", features = ["server", "http1"] }
hyper-util = { version = "*", features = ["tokio"] }
ignore = "*"
open = "*"
quick-xml = "*"
regex = "*"
reqwest = { version = "*", features = ["blocking", "multipart", "json"] }
serde = { version = "*", features = ["derive"] }
serde_json = "*"
tempfile = "*"
termcolor = "*"
tokio = { version = "*", features = ["rt-multi-thread", "net", "time"] }
toml = "*"
urlencoding = "*"
uuid = { version = "*", features = ["v4"] }
which = "*"
zip = "*"
