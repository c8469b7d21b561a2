[package]
name = "d1_bt0"
version = "0.1.0"
edition = "2021"
publish = false
