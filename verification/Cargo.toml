[package]
name = "coderaid"
version = "0.1.0"
edition = "2021"
publish = false

[dependencies]
bevy = { version = "0.13", default-features = false }
bevy_prng = { version = "0.5", features = ["wyrand"] }
bevy_rand = { version = "0.5", features = ["wyrand"] }
bevy_xpbd_3d = { version = "0.4", default-features = false, features = ["3d", "f32", "parry-f32"] }
derivative = "2.2"
derive_more = "0.99"
itertools = "0.12"
rand_core = "0.6"
