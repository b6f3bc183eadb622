[package]
name = "df_metrics"
version = "0.1.0"
edition = "2021"
publish = false

[dependencies]
arrow = "=59.3.1"
datafusion = { version = "=55.2.0", default-features = false }
pyo3 = "=0.20.3"
pyo3-asyncio = { version = "=0.20.0", features = ["tokio-runtime"] }
thiserror = "=2.0.21"
tokio = { version = "=1.54.1", features = ["rt", "rt-multi-thread"] }
