[package]
name = "winoleum"
version = "0.1.0"
edition = "2021"
publish = false

[dependencies]
libloading = "=0.5.2"
stretch = "0.2"

[dependencies.winapi]
version = "=0.3.9"
features = ["winuser", "wingdi", "windef", "minwindef", "winnt", "winerror", "guiddef", "libloaderapi", "unknwnbase", "servprov", "shellapi", "combaseapi", "wtypesbase", "objbase", "dwmapi", "uxtheme", "ntdef"]
