[package]
name = "glue_catalog"
version = "0.1.0"
edition = "2021"
publish = false

[dependencies]
async-trait = "0.1"
rusoto_core = "0.47"
rusoto_credential = "0.47"
rusoto_glue = "0.47"
rusoto_sts = "0.47"
