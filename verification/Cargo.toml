[package]
name = "debil_mysql"
version = "0.1.0"
edition = "2021"
publish = false

[dependencies]
debil = "=0.4.2"
mysql_async = "=0.37.1"
