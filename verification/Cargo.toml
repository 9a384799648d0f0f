[package]
name = "package_publisher"
version = "0.1.0"
edition = "2021"
publish = false

[dependencies]
semver = "*"
sha2 = "*"
hex = "*"
mustache = "*"
handlebars = "*"
toml = "*"
flate2 = "*"
git2 = { version = "*", default-features = false }
reqwest = { version = "*", default-features = false, features = ["blocking"] }
tempfile = "*"
