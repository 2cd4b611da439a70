[package]
name = "reviews_subgraph"
version = "0.1.0"
edition = "2021"
publish = false

[dependencies]
async-graphql = "=7.2.1"
async-graphql-warp = "=7.2.1"
tokio = { version = "=1.53.2", features = ["macros", "rt-multi-thread"] }
warp = "=0.3.7"
