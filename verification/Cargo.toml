[package]
name = "librazer"
version = "0.1.0"
edition = "2021"
publish = false

[dependencies]
anyhow = "=1.0.104"
winreg = "=0.52.0"
egui = "0.29"

[dependencies.hidapi]
version = "=2.6.7"
default-features = false
features = ["linux-native-basic-udev"]

[dependencies.windows]
version = "0.58"
features = [
    "Win32_Foundation",
    "Win32_UI_Input_KeyboardAndMouse",
    "Win32_Graphics_Gdi",
    "Win32_Media_Audio",
    "Win32_Media_Audio_Endpoints",
    "Win32_System_Com",
]
