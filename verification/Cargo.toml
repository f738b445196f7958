[package]
name = "naruto"
version = "0.1.0"
edition = "2021"
publish = false

[dependencies]
async-graphql = "4.0"
slab = "0.4"
