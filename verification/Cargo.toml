[package]
name = "polars_ta"
version = "0.1.0"
edition = "2021"
publish = false

[dependencies]
anyhow = "1"
polars = { version = "0.37", default-features = false, features = ["lazy", "ewma", "rolling_window", "cum_agg", "abs", "diff"] }
