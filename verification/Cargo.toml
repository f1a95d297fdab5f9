[package]
name = "pengu"
version = "0.1.0"
edition = "2021"
publish = false

[dependencies]
libc = "0.2"
msgbox = "*"
winapi = { version = "0.3", features = ["errhandlingapi", "handleapi", "libloaderapi", "memoryapi", "processthreadsapi", "synchapi", "winbase", "winnt", "winuser", "ntdef", "minwindef"] }
