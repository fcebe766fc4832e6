[package]
name = "pagination"
version = "0.1.0"
edition = "2021"
publish = false

[dependencies]
diesel = { version = "1.4", default-features = false, features = ["postgres", "mysql"] }
