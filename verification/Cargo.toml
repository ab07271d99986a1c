[package]
name = "zone_daemon"
version = "0.1.0"
edition = "2021"
publish = false

[dependencies]
dbus = "=0.6.5"
gio = "=0.9.1"
glib = "=0.10.3"
gtk = "=0.9.2"
