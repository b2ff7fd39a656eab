[package]
name = "llvm_backend"
version = "0.1.0"
edition = "2021"
publish = false

[dependencies]
hashbrown = "*"
inkwell = { version = "*", features = ["llvm14-0"] }
llvm-sys = { version = "140", features = ["force-dynamic"] }
wasmer-runtime-core = "*"
