[package]
name = "opal_lib"
version = "0.1.0"
edition = "2021"
publish = false

[dependencies]
winapi = { version = "0.3", features = ["processthreadsapi", "winbase", "errhandlingapi"] }
sysinfo = { version = "0.30", default-features = false }
chrono = { version = "0.4", default-features = false, features = ["clock"] }
num_cpus = "1"
