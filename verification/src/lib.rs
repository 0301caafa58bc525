//! A minimal, configurable console logger: leveled, color-coded diagnostic
//! lines on the error stream, optionally annotated with the call site's
//! file and line.

pub mod decimal;
pub mod level;
pub mod logger;
