[package]
name = "unicorn_board"
version = "0.1.0"
edition = "2021"
publish = false

[dependencies]
ctrlc = "=3.5.2"
image = "=0.25.10"
unicorn_hat_hd = { version = "=0.2.1", default-features = false, features = ["fake-hardware"] }
