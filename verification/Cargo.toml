[package]
name = "lua_to_ts"
version = "0.1.0"
edition = "2021"
publish = false

[dependencies]
itertools = "=0.10.5"
full_moon = { version = "=0.16.2", features = ["roblox"] }
swc_ecma_ast = "*"
swc_ecma_codegen = "*"
swc_common = "*"
swc_atoms = "*"
rbx_dom_weak = "=2.9.0"
rbx_binary = "=0.6.6"
rbx_xml = "=0.12.4"
rbx_types = "=1.10.0"
clap = { version = "=3.2.25", features = ["derive"] }
exitcode = "=1.1.2"
