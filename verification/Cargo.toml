[package]
name = "company_entity"
version = "0.1.0"
edition = "2021"
publish = false

[dependencies]
sea-orm = "0.12"
