[package]
name = "divviup_android"
version = "0.1.0"
edition = "2021"
publish = false

[dependencies]
janus_core = "=0.7.142"
janus_messages = "=0.7.142"
prio = "=0.16.8"
rand = "=0.8.8"
jni = "=0.22.4"
