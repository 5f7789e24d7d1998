[package]
name = "openharmony_ability"
version = "0.1.0"
edition = "2021"
publish = false

[dependencies]
futures-channel = "0.3"
log = "0.4"
napi-derive-ohos = "*"
napi-ohos = "*"
ohos-arkui-binding = "*"
ohos-arkui-sys = "*"
ohos-display-binding = "*"
ohos-ime-binding = "*"
ohos-xcomponent-binding = "*"
ohos-xcomponent-sys = "*"
