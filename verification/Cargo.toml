[package]
name = "ft_lib"
version = "0.1.0"
edition = "2021"
publish = false

[dependencies]
arrayvec = "*"
sha2 = "*"
p256 = "*"
elliptic-curve = { version = "*", features = ["pkcs8", "std"] }
hex = "*"
log = "*"
anyhow = "*"
zerocopy = "*"
