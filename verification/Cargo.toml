[package]
name = "board_con"
version = "0.1.0"
edition = "2021"
publish = false

[dependencies]
shakmaty = "=0.25.0"
cxx-qt = "=0.5.3"
cxx-qt-lib = "=0.5.3"
