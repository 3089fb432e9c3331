[package]
name = "macos26_sidebar"
version = "0.1.0"
edition = "2021"
publish = false
