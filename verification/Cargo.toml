[package]
name = "r_efi_alloc"
version = "0.1.0"
edition = "2021"
publish = false

[dependencies]
r-efi = "=7.1.0"
