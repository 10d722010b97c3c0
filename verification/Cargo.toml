[package]
name = "password_out"
version = "0.1.0"
edition = "2021"
publish = false

[dependencies]
uuid = { version = "1", features = ["v4"] }
time = { version = "0.3", features = ["parsing", "macros"] }
base64 = "0.22"
argon2 = "0.5"
chacha20poly1305 = "0.10"
rand = "0.8"
rsa = { version = "0.9", features = ["sha2"] }
x509-parser = "0.16"
flate2 = "1"
openssl = "0.10"
serde = { version = "1", features = ["derive"] }
serde_json = "1"
clap = { version = "4", features = ["derive"] }
directories = "5"
zeroize = "1"
rpassword = "7"
arboard = { version = "3", default-features = false }
pcsc = "2"
windows-sys = { version = "0.59", features = ["Win32_Foundation", "Win32_UI_Input_KeyboardAndMouse", "Win32_UI_WindowsAndMessaging", "Win32_Graphics_Gdi", "Win32_System_LibraryLoader"] }
