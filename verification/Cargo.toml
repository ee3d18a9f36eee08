[package]
name = "bookmarks_movement"
version = "0.1.0"
edition = "2021"
publish = false

[dependencies]
regex = "1"
mysql_common = "*"
