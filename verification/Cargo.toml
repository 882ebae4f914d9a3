[package]
name = "geo_offset"
version = "0.1.0"
edition = "2021"
publish = false

[dependencies]
geo = "*"
geo-booleanop = "*"
