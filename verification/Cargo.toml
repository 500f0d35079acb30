[package]
name = "safe_transfer"
version = "0.1.0"
edition = "2021"
publish = false

[dependencies]
borsh = "*"
pinocchio = "*"
pinocchio-associated-token-account = "*"
pinocchio-log = "*"
pinocchio-token = "*"
pinocchio-token-2022 = "*"
thiserror = "*"
