[package]
name = "bet_a0"
version = "0.1.0"
edition = "2021"
publish = false
