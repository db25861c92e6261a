[package]
name = "tantivy_pinyin"
version = "0.1.0"
edition = "2021"

[dependencies]
pinyin = "0.9"
tantivy = "0.19"
