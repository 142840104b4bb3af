[package]
name = "auth_gateway"
version = "0.1.0"
edition = "2021"
publish = false

[dependencies]
aws-config = "*"
aws-sdk-cognitoidentityprovider = "*"
http = "*"
lambda_http = "*"
tokio = { version = "*", features = ["macros", "rt-multi-thread"] }
