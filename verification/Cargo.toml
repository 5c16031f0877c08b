[package]
name = "firm_site"
version = "0.1.0"
edition = "2021"
publish = false

[dependencies]
actix-web = "4"
