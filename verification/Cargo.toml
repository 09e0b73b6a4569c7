[package]
name = "regex_cache"
version = "0.1.0"
edition = "2021"
publish = false

[dependencies]
lru-cache = "0.1"
regex = "0.2"
regex-syntax = "0.4"
thread_local = "0.3"
