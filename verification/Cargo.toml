[package]
name = "mdx"
version = "0.1.0"
edition = "2021"
publish = false

[dependencies]
pulldown-cmark = "*"
html_parser_rscx = "*"
rscx = "*"
async-trait = "*"
futures = "*"
