[package]
name = "reaper_rs"
version = "0.1.0"
edition = "2021"
publish = false

[dependencies]
helgoboss-midi = "*"
enumflags2 = "*"
c_str_macro = "*"
vst = "*"
futures-timer = "*"
